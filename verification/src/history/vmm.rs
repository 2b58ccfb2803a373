//! Histories of the operations in `sim::vmm`.
use vstd::prelude::*;
use crate::history::{alloc_follows, follows, reserve_hbm_follows, rest_follows};
use crate::history::access::tick_follows;
use crate::history::charge::add_alloc_follows;
use crate::history::pools::pay_alloc_follows;
use crate::history::ranges::{
    drop_vmm_physical_follows, handle_follows, has_piece, map_added, map_forgotten, map_found,
    maps_dropped, piece_dropped, piece_follows, spread, team_piece_follows,
};
use crate::history::run::synchronize_follows;
use crate::history::transfer::kernel_follows;
use crate::ids::{AllocId, DeviceId, MemHandleId, MulticastId, Piece, StreamId};
use crate::list::{with_new, without};
use crate::num::{clamp_u32, max_u64, min_u64};
use crate::ops::KernelKind;
use crate::sim::SimState;
use crate::state::{AllocView, MemHandle, MulticastView, NextIds};
use crate::table::vacant;

verus! {

/// [`Sim::va_reserve`] continues the history.
pub proof fn va_reserve_follows(z: SimState, s0: SimState, bytes: u64)
    requires
        follows(z, s0),
    ensures
        follows(z, s0.va_reserve(bytes).0),
{
    let s = s0;
    if !(bytes == 0) {
        match s.check_va_align(bytes) {
            Err(e) => {},
            Ok(_v) => match s.fail_if_capturing("cannot capture alloc/free") {
                Err(e) => {},
                Ok(_v) => {
                    tick_follows(z, s, s.first_alloc_ns());
                    let s = s.tick(s.first_alloc_ns());
                    let a = AllocView::blank(bytes);
                    let a = AllocView { live: true, ..a };
                    let a = AllocView { vmm: true, ..a };
                    add_alloc_follows(z, s, a);
                },
            },
        }
    }
}

/// [`Sim::va_map`] continues the history.
pub proof fn va_map_follows(z: SimState, s0: SimState, id: AllocId, device: DeviceId)
    requires
        follows(z, s0),
    ensures
        follows(z, s0.va_map(id, device).0),
{
    let s = s0;
    match s.alloc_ref(id) {
        Err(e) => {},
        Ok(a) => {
            let bytes = a.bytes;
            va_map_range_follows(z, s, id, device, 0, bytes);
        },
    }
}

/// [`Sim::add_map`] continues the history.
pub proof fn add_map_follows(
    z: SimState,
    s0: SimState,
    id: AllocId,
    device: DeviceId,
    offset: u64,
    bytes: u64,
)
    requires
        follows(z, s0),
    ensures
        follows(z, s0.add_map(id, device, offset, bytes).0),
        s0.add_map(id, device, offset, bytes).1 is Ok ==> s0.add_map(id, device, offset, bytes).0.allocs.contains_key(id) && s0.add_map(
            id,
            device,
            offset,
            bytes,
        ).0.allocs[id].vmm_maps.contains((device, offset, bytes)),
        s0.add_map(id, device, offset, bytes).0.next == s0.next,
{
    let s = s0;
    match s.alloc_ref(id) {
        Err(e) => {},
        Ok(a) => {
            let a = AllocView { vmm_maps: a.vmm_maps.push((device, offset, bytes)), ..a };
            let a = AllocView { devices: with_new(a.devices, device), ..a };
            map_added(z, s, id, (device, offset, bytes));
            alloc_follows(z, s, id, a);
            let s = SimState { allocs: s.allocs.insert(id, a), ..s };
            rest_follows(z, s, SimState { vmm_idle: without(s.vmm_idle, id), ..s });
        },
    }
}

/// [`Sim::va_create`] continues the history.
pub proof fn va_create_follows(z: SimState, s0: SimState, device: DeviceId, bytes: u64)
    requires
        follows(z, s0),
    ensures
        follows(z, s0.va_create(device, bytes).0),
{
    let s = s0;
    if !(bytes == 0) {
        match s.check_va_align(bytes) {
            Err(e) => {},
            Ok(_v) => match s.fail_if_capturing("cannot capture alloc/free") {
                Err(e) => {},
                Ok(_v) => match s.profile.gpu(device) {
                    Err(e) => {},
                    Ok(_gpu) => {
                        reserve_hbm_follows(z, s, device, bytes);
                        match s.reserve_hbm(device, bytes) {
                            (s, Err(e)) => {},
                            (s, Ok(_v)) => {
                                pay_alloc_follows(z, s, device);
                                match s.pay_alloc(device) {
                                    (s, Err(e)) => {},
                                    (s, Ok(_v)) => {
                                        let id = MemHandleId(s.next.handle);
                                        assert(
                                            follows(
                                                z,
                                                SimState {
                                                    next: NextIds {
                                                        handle: s.next.handle.saturating_add(1),
                                                        ..s.next
                                                    },
                                                    ..s
                                                },
                                            )
                                        ) by {
                                            reveal(follows);
                                        }
                                        let s = SimState {
                                            next: NextIds {
                                                handle: s.next.handle.saturating_add(1),
                                                ..s.next
                                            },
                                            ..s
                                        };
                                        handle_follows(
                                            z,
                                            s,
                                            id,
                                            MemHandle {
                                                device,
                                                bytes,
                                                refs: 1,
                                                maps: 0,
                                                charged: true,
                                            },
                                        );
                                    },
                                }
                            },
                        }
                    },
                },
            },
        }
    }
}

/// [`Sim::va_map_handle`] continues the history.
pub proof fn va_map_handle_follows(
    z: SimState,
    s0: SimState,
    id: AllocId,
    device: DeviceId,
    offset: u64,
    handle: MemHandleId,
)
    requires
        follows(z, s0),
    ensures
        follows(z, s0.va_map_handle(id, device, offset, handle).0),
{
    let s = s0;
    match s.fail_if_capturing("cannot capture alloc/free") {
        Err(e) => {},
        Ok(_v) => match s.handle_ref(handle) {
            Err(e) => {},
            Ok(h) => {
                if !(h.refs == 0) {
                    if !(h.device != device) {
                        let bytes = h.bytes;
                        match s.span_mappable(id, device, offset, bytes) {
                            Err(e) => {},
                            Ok(_v) => {
                                pay_alloc_follows(z, s, device);
                                match s.pay_alloc(device) {
                                    (s, Err(e)) => {},
                                    (s, Ok(_v)) => {
                                        add_map_follows(z, s, id, device, offset, bytes);
                                        match s.add_map(id, device, offset, bytes) {
                                            (s, Err(e)) => {},
                                            (s, Ok(_v)) => match s.handle_ref(handle) {
                                                Err(e) => {},
                                                Ok(k) => {
                                                    let k = MemHandle {
                                                        maps: k.maps.saturating_add(1),
                                                        ..k
                                                    };
                                                    handle_follows(z, s, handle, k);
                                                    let s = SimState {
                                                        mem_handles: s.mem_handles.insert(handle, k),
                                                        ..s
                                                    };
                                                    piece_follows(
                                                        z,
                                                        s,
                                                        Piece(id, device, offset, bytes),
                                                        handle,
                                                    );
                                                },
                                            },
                                        }
                                    },
                                }
                            },
                        }
                    }
                }
            },
        },
    }
}

/// [`Sim::va_retain_handle`] continues the history.
pub proof fn va_retain_handle_follows(
    z: SimState,
    s0: SimState,
    id: AllocId,
    device: DeviceId,
    offset: u64,
)
    requires
        follows(z, s0),
    ensures
        follows(z, s0.va_retain_handle(id, device, offset).0),
{
    let s = s0;
    match s.fail_if_capturing("cannot capture alloc/free") {
        Err(e) => {},
        Ok(_v) => match s.profile.gpu(device) {
            Err(e) => {},
            Ok(_gpu) => match s.alloc_ref(id) {
                Err(e) => {},
                Ok(a) => {
                    if !(!a.live || !a.vmm) {
                        match s.map_at(a.vmm_maps, device, offset) {
                            Some(n) => {
                                let bytes = n;
                                map_found(s, a.vmm_maps, device, offset);
                                retain_piece_follows(z, s, id, device, offset, bytes);
                            },
                            None => {},
                        }
                    }
                },
            },
        },
    }
}

/// [`Sim::retain_piece`] continues the history.
pub proof fn retain_piece_follows(
    z: SimState,
    s0: SimState,
    id: AllocId,
    device: DeviceId,
    offset: u64,
    bytes: u64,
)
    requires
        follows(z, s0),
        spread(z, s0) ==> s0.allocs.contains_key(id) && s0.allocs[id].vmm_maps.contains(
            (device, offset, bytes),
        ),
    ensures
        follows(z, s0.retain_piece(id, device, offset, bytes).0),
{
    reveal(SimState::retain_piece);
    let s = s0;
    let known = match s.vmm_handle_at.get(Piece(id, device, offset, bytes)) {
        Some(h) => Some(h),
        None => None,
    };
    match known {
        Some(handle) => match s.handle_ref(handle) {
            Err(e) => {},
            Ok(was) => {
                let refs = was.refs;
                match s.handle_ref(handle) {
                    Err(e) => {},
                    Ok(h) => {
                        handle_follows(
                            z,
                            s,
                            handle,
                            MemHandle { refs: refs.saturating_add(1), ..h },
                        );
                        let s = SimState {
                            mem_handles: s.mem_handles.insert(
                                handle,
                                MemHandle { refs: refs.saturating_add(1), ..h },
                            ),
                            ..s
                        };
                        pay_alloc_follows(z, s, device);
                    },
                }
            },
        },
        None => {
            pay_alloc_follows(z, s, device);
            match s.pay_alloc(device) {
                (s, Err(e)) => {},
                (s, Ok(_v)) => {
                    let charged = !s.mc_at.contains(Piece(id, device, offset, bytes));
                    let h = MemHandleId(s.next.handle);
                    assert(
                        follows(
                            z,
                            SimState {
                                next: NextIds { handle: s.next.handle.saturating_add(1), ..s.next },
                                ..s
                            },
                        )
                    ) by {
                        reveal(follows);
                    }
                    let s = SimState {
                        next: NextIds { handle: s.next.handle.saturating_add(1), ..s.next },
                        ..s
                    };
                    handle_follows(z, s, h, MemHandle { device, bytes, refs: 1, maps: 1, charged });
                    let s = SimState {
                        mem_handles: s.mem_handles.insert(
                            h,
                            MemHandle { device, bytes, refs: 1, maps: 1, charged },
                        ),
                        ..s
                    };
                    piece_follows(z, s, Piece(id, device, offset, bytes), h);
                },
            }
        },
    }
}

/// [`Sim::va_map_range`] continues the history.
pub proof fn va_map_range_follows(
    z: SimState,
    s0: SimState,
    id: AllocId,
    device: DeviceId,
    offset: u64,
    bytes: u64,
)
    requires
        follows(z, s0),
    ensures
        follows(z, s0.va_map_range(id, device, offset, bytes).0),
{
    let s = s0;
    match s.fail_if_capturing("cannot capture alloc/free") {
        Err(e) => {},
        Ok(_v) => match s.profile.gpu(device) {
            Err(e) => {},
            Ok(_gpu) => match s.alloc_ref(id) {
                Err(e) => {},
                Ok(a) => {
                    if !(a.leases > 0) {
                        if !(!a.live || !a.vmm) {
                            if !(bytes == 0) {
                                if !(offset.saturating_add(bytes) > a.bytes) {
                                    match s.check_va_align(offset) {
                                        Err(e) => {},
                                        Ok(_v) => match s.check_va_align(bytes) {
                                            Err(e) => {},
                                            Ok(_v) => match s.span_mappable(
                                                id,
                                                device,
                                                offset,
                                                bytes,
                                            ) {
                                                Err(e) => {},
                                                Ok(_v) => {
                                                    reserve_hbm_follows(z, s, device, bytes);
                                                    match s.reserve_hbm(device, bytes) {
                                                        (s, Err(e)) => {},
                                                        (s, Ok(_v)) => {
                                                            pay_alloc_follows(z, s, device);
                                                            match s.pay_alloc(device) {
                                                                (s, Err(e)) => {},
                                                                (s, Ok(_v)) => {
                                                                    add_map_follows(
                                                                        z,
                                                                        s,
                                                                        id,
                                                                        device,
                                                                        offset,
                                                                        bytes,
                                                                    );
                                                                },
                                                            }
                                                        },
                                                    }
                                                },
                                            },
                                        },
                                    }
                                }
                            }
                        }
                    }
                },
            },
        },
    }
}

/// [`Sim::drop_maps`] continues the history.
pub proof fn drop_maps_follows(
    z: SimState,
    s0: SimState,
    id: AllocId,
    maps: Seq<(DeviceId, u64, u64)>,
)
    requires
        follows(z, s0),
    ensures
        follows(z, s0.drop_maps(id, maps).0),
{
    let s = s0;
    drop_maps_from_follows(z, s, id, maps, 0);
}

/// [`Sim::drop_maps`] continues the history, from position `i` on.
pub proof fn drop_maps_from_follows(
    z: SimState,
    s0: SimState,
    id: AllocId,
    maps: Seq<(DeviceId, u64, u64)>,
    i: int,
)
    requires
        follows(z, s0),
    ensures
        follows(z, s0.drop_maps_from(id, maps, i).0),
    decreases maps.len() - i,
{
    let s = s0;
    if 0 <= i < maps.len() {
        drop_vmm_physical_follows(z, s, id, maps[i].0, maps[i].1, maps[i].2);
        match s.drop_vmm_physical(id, maps[i].0, maps[i].1, maps[i].2) {
            (s, Err(e)) => {},
            (s, Ok(_v)) => {
                drop_maps_from_follows(z, s, id, maps, i + 1);
            },
        }
    }
}

/// [`Sim::va_unmap`] continues the history.
pub proof fn va_unmap_follows(z: SimState, s0: SimState, id: AllocId)
    requires
        follows(z, s0),
    ensures
        follows(z, s0.va_unmap(id).0),
{
    let s = s0;
    match s.fail_if_capturing("cannot capture alloc/free") {
        Err(e) => {},
        Ok(_v) => {
            synchronize_follows(z, s);
            match s.synchronize() {
                (s, Err(e)) => {},
                (s, Ok(_v)) => match s.unmappable(id) {
                    Err(e) => {},
                    Ok(_v) => match s.alloc_ref(id) {
                        Err(e) => {},
                        Ok(a) => {
                            let maps = a.vmm_maps;
                            if !(maps.len() == 0) {
                                maps_dropped(z, s, id, maps);
                                drop_maps_follows(z, s, id, maps);
                                match s.drop_maps(id, maps) {
                                    (s, Err(e)) => {},
                                    (s, Ok(_v)) => match s.alloc_ref(id) {
                                        Err(e) => {},
                                        Ok(b) => {
                                            let b = AllocView {
                                                vmm_maps: Seq::empty(),
                                                devices: Seq::empty(),
                                                accessed_by: Set::empty(),
                                                vmm_write_by: Set::empty(),
                                                ..b
                                            };
                                            alloc_follows(z, s, id, b);
                                            let s = SimState {
                                                allocs: s.allocs.insert(id, b),
                                                ..s
                                            };
                                            rest_follows(
                                                z,
                                                s,
                                                SimState { mc_vas: s.mc_vas.remove(id), ..s },
                                            );
                                        },
                                    },
                                }
                            }
                        },
                    },
                },
            }
        },
    }
}

/// [`Sim::va_unmap_range`] continues the history.
pub proof fn va_unmap_range_follows(
    z: SimState,
    s0: SimState,
    id: AllocId,
    device: DeviceId,
    offset: u64,
    bytes: u64,
)
    requires
        follows(z, s0),
    ensures
        follows(z, s0.va_unmap_range(id, device, offset, bytes).0),
{
    let s = s0;
    match s.fail_if_capturing("cannot capture alloc/free") {
        Err(e) => {},
        Ok(_v) => {
            synchronize_follows(z, s);
            match s.synchronize() {
                (s, Err(e)) => {},
                (s, Ok(_v)) => match s.unmappable(id) {
                    Err(e) => {},
                    Ok(_v) => match s.alloc_ref(id) {
                        Err(e) => {},
                        Ok(a) => {
                            if !(!s.has_map(a.vmm_maps, device, offset, bytes)) {
                                piece_dropped(s, id, device, offset, bytes);
                                drop_vmm_physical_follows(z, s, id, device, offset, bytes);
                                match s.drop_vmm_physical(id, device, offset, bytes) {
                                    (s, Err(e)) => {},
                                    (s, Ok(_v)) => {
                                        forget_map_follows(z, s, id, device, offset, bytes);
                                    },
                                }
                            }
                        },
                    },
                },
            }
        },
    }
}

/// [`Sim::forget_map`] continues the history.
pub proof fn forget_map_follows(
    z: SimState,
    s0: SimState,
    id: AllocId,
    device: DeviceId,
    offset: u64,
    bytes: u64,
)
    requires
        follows(z, s0),
        spread(z, s0) ==> !has_piece(s0.vmm_handle_at, s0.mc_at, Piece(id, device, offset, bytes)),
    ensures
        follows(z, s0.forget_map(id, device, offset, bytes).0),
{
    reveal(SimState::forget_map);
    let s = s0;
    match s.alloc_ref(id) {
        Err(e) => {},
        Ok(a) => {
            let maps = s.maps_without(a.vmm_maps, (device, offset, bytes));
            let devices = a.devices;
            let devices = if !s.maps_on(maps, device) {
                let devices = without(devices, device);
                devices
            } else {
                devices
            };
            if maps.len() == 0 {
                match s.alloc_ref(id) {
                    Err(e) => {},
                    Ok(c) => {
                        let c = AllocView {
                            vmm_maps: maps,
                            devices: devices,
                            accessed_by: Set::empty(),
                            vmm_write_by: Set::empty(),
                            ..c
                        };
                        map_forgotten(z, s, id, (device, offset, bytes));
                        alloc_follows(z, s, id, c);
                        let s = SimState { allocs: s.allocs.insert(id, c), ..s };
                        rest_follows(z, s, SimState { mc_vas: s.mc_vas.remove(id), ..s });
                    },
                }
            } else {
                match s.alloc_ref(id) {
                    Err(e) => {},
                    Ok(b) => {
                        let b = AllocView { vmm_maps: maps, devices: devices, ..b };
                        map_forgotten(z, s, id, (device, offset, bytes));
                        alloc_follows(z, s, id, b);
                    },
                }
            }
        },
    }
}

/// [`Sim::va_set_access`] continues the history.
pub proof fn va_set_access_follows(z: SimState, s0: SimState, id: AllocId, device: DeviceId)
    requires
        follows(z, s0),
    ensures
        follows(z, s0.va_set_access(id, device).0),
{
    let s = s0;
    va_set_access_inner_follows(z, s, id, device, false);
}

/// [`Sim::va_set_access_write`] continues the history.
pub proof fn va_set_access_write_follows(z: SimState, s0: SimState, id: AllocId, device: DeviceId)
    requires
        follows(z, s0),
    ensures
        follows(z, s0.va_set_access_write(id, device).0),
{
    let s = s0;
    va_set_access_inner_follows(z, s, id, device, true);
}

/// [`Sim::va_set_access_inner`] continues the history.
pub proof fn va_set_access_inner_follows(
    z: SimState,
    s0: SimState,
    id: AllocId,
    device: DeviceId,
    write: bool,
)
    requires
        follows(z, s0),
    ensures
        follows(z, s0.va_set_access_inner(id, device, write).0),
{
    reveal(SimState::va_set_access_inner);
    let s = s0;
    match s.fail_if_capturing("cannot capture alloc/free") {
        Err(e) => {},
        Ok(_v) => match s.profile.gpu(device) {
            Err(e) => {},
            Ok(_gpu) => match s.alloc_ref(id) {
                Err(e) => {},
                Ok(a) => {
                    if !(!a.live || !a.vmm) {
                        match a.vmm_home() {
                            Some(owner) => match s.reachable_from(owner, device) {
                                Err(e) => {},
                                Ok(_v) => {
                                    grant_va_follows(z, s, id, device, write);
                                    match s.grant_va(id, device, write) {
                                        (s, Err(e)) => {},
                                        (s, Ok(_v)) => {
                                            tick_follows(z, s, s.first_alloc_ns());
                                        },
                                    }
                                },
                            },
                            _ => {},
                        }
                    }
                },
            },
        },
    }
}

/// [`Sim::grant_va`] continues the history.
pub proof fn grant_va_follows(z: SimState, s0: SimState, id: AllocId, device: DeviceId, write: bool)
    requires
        follows(z, s0),
    ensures
        follows(z, s0.grant_va(id, device, write).0),
{
    reveal(SimState::grant_va);
    let s = s0;
    if write {
        match s.alloc_ref(id) {
            Err(e) => {},
            Ok(b) => {
                let b = AllocView { accessed_by: b.accessed_by.insert(device), ..b };
                let b = AllocView { vmm_write_by: b.vmm_write_by.insert(device), ..b };
                alloc_follows(z, s, id, b);
            },
        }
    } else {
        match s.alloc_ref(id) {
            Err(e) => {},
            Ok(c) => {
                let c = AllocView { accessed_by: c.accessed_by.insert(device), ..c };
                let c = AllocView { vmm_write_by: c.vmm_write_by.remove(device), ..c };
                alloc_follows(z, s, id, c);
            },
        }
    }
}

/// [`Sim::va_unset_access`] continues the history.
pub proof fn va_unset_access_follows(z: SimState, s0: SimState, id: AllocId, device: DeviceId)
    requires
        follows(z, s0),
    ensures
        follows(z, s0.va_unset_access(id, device).0),
{
    let s = s0;
    match s.fail_if_capturing("cannot capture alloc/free") {
        Err(e) => {},
        Ok(_v) => match s.profile.gpu(device) {
            Err(e) => {},
            Ok(_gpu) => match s.alloc_ref(id) {
                Err(e) => {},
                Ok(a) => {
                    if !(!a.live || !a.vmm) {
                        match s.alloc_ref(id) {
                            Err(e) => {},
                            Ok(b) => {
                                let b = AllocView {
                                    accessed_by: b.accessed_by.remove(device),
                                    ..b
                                };
                                let b = AllocView {
                                    vmm_write_by: b.vmm_write_by.remove(device),
                                    ..b
                                };
                                alloc_follows(z, s, id, b);
                                let s = SimState { allocs: s.allocs.insert(id, b), ..s };
                                tick_follows(z, s, s.first_alloc_ns());
                            },
                        }
                    }
                },
            },
        },
    }
}

/// [`Sim::va_free`] continues the history.
pub proof fn va_free_follows(z: SimState, s0: SimState, id: AllocId)
    requires
        follows(z, s0),
    ensures
        follows(z, s0.va_free(id).0),
{
    let s = s0;
    match s.fail_if_capturing("cannot capture alloc/free") {
        Err(e) => {},
        Ok(_v) => match s.alloc_ref(id) {
            Err(e) => {},
            Ok(a) => {
                if !(a.leases > 0) {
                    if !(!a.live || !a.vmm) {
                        if !(a.devices.len() > 0) {
                            rest_follows(z, s, SimState { vmm_idle: without(s.vmm_idle, id), ..s });
                            let s = SimState { vmm_idle: without(s.vmm_idle, id), ..s };
                            match s.alloc_ref(id) {
                                Err(e) => {},
                                Ok(a) => {
                                    alloc_follows(z, s, id, AllocView { live: false, ..a });
                                },
                            }
                        }
                    }
                }
            },
        },
    }
}

/// [`Sim::take_idle_va`] continues the history.
pub proof fn take_idle_va_follows(z: SimState, s0: SimState, bytes: u64)
    requires
        follows(z, s0),
    ensures
        follows(z, s0.take_idle_va(bytes).0),
{
    let s = s0;
    let idle = s.idle_vas();
    let at = s.va_of_size(idle, bytes);
    match at {
        None => {
            rest_follows(z, s, SimState { vmm_idle: idle, ..s });
        },
        Some(i) => {
            if !(i >= idle.len()) {
                let id = idle[i as int];
                rest_follows(z, s, SimState { vmm_idle: s.ids_without(idle, i), ..s });
            }
        },
    }
}

/// [`Sim::park_idle_va`] continues the history.
pub proof fn park_idle_va_follows(z: SimState, s0: SimState, id: AllocId)
    requires
        follows(z, s0),
    ensures
        follows(z, s0.park_idle_va(id)),
{
    let s = s0;
    rest_follows(z, s, SimState { vmm_idle: with_new(s.vmm_idle, id), ..s });
}

/// [`Sim::idle_or_new_va`] continues the history.
pub proof fn idle_or_new_va_follows(z: SimState, s0: SimState, bytes: u64)
    requires
        follows(z, s0),
    ensures
        follows(z, s0.idle_or_new_va(bytes).0),
{
    let s = s0;
    take_idle_va_follows(z, s, bytes);
    let (s, idle) = s.take_idle_va(bytes);
    match idle {
        Some(id) => {},
        None => {
            va_reserve_follows(z, s, bytes);
        },
    }
}

/// [`Sim::va_acquire`] continues the history.
pub proof fn va_acquire_follows(z: SimState, s0: SimState, device: DeviceId, bytes: u64)
    requires
        follows(z, s0),
    ensures
        follows(z, s0.va_acquire(device, bytes).0),
{
    let s = s0;
    idle_or_new_va_follows(z, s, bytes);
    match s.idle_or_new_va(bytes) {
        (s, Err(e)) => {},
        (s, Ok(id)) => {
            va_map_follows(z, s, id, device);
            let (s, v1) = s.va_map(id, device);
            match v1 {
                Err(e) => {
                    park_idle_va_follows(z, s, id);
                },
                Ok(_done) => {},
            }
        },
    }
}

/// [`Sim::va_acquire_paged`] continues the history.
pub proof fn va_acquire_paged_follows(
    z: SimState,
    s0: SimState,
    device: DeviceId,
    bytes: u64,
    page: u64,
)
    requires
        follows(z, s0),
    ensures
        follows(z, s0.va_acquire_paged(device, bytes, page).0),
{
    let s = s0;
    let size = max_u64(page, 1);
    if size >= bytes {
        va_acquire_follows(z, s, device, bytes);
    } else {
        idle_or_new_va_follows(z, s, bytes);
        match s.idle_or_new_va(bytes) {
            (s, Err(e)) => {},
            (s, Ok(id)) => {
                map_va_pages_follows(z, s, id, device, size);
                let (s, v1) = s.map_va_pages(id, device, size);
                match v1 {
                    Err(e) => {
                        park_idle_va_follows(z, s, id);
                    },
                    Ok(_done) => {},
                }
            },
        }
    }
}

/// [`Sim::map_va_pages`] continues the history.
pub proof fn map_va_pages_follows(
    z: SimState,
    s0: SimState,
    id: AllocId,
    device: DeviceId,
    page: u64,
)
    requires
        follows(z, s0),
    ensures
        follows(z, s0.map_va_pages(id, device, page).0),
{
    let s = s0;
    match s.alloc_ref(id) {
        Err(e) => {},
        Ok(a) => {
            let total = a.bytes;
            map_pages_from_follows(z, s, id, device, page, 0, total);
        },
    }
}

/// [`Sim::map_pages_from`] continues the history.
pub proof fn map_pages_from_follows(
    z: SimState,
    s0: SimState,
    id: AllocId,
    device: DeviceId,
    page: u64,
    off: u64,
    total: u64,
)
    requires
        follows(z, s0),
    ensures
        follows(z, s0.map_pages_from(id, device, page, off, total).0),
    decreases total - off,
{
    let s = s0;
    if !(off >= total) {
        let n = min_u64(max_u64(page, 1), total.saturating_sub(off));
        va_map_range_follows(z, s, id, device, off, n);
        let (s, v1) = s.va_map_range(id, device, off, n);
        match v1 {
            Err(e) => {
                if off > 0 {
                    va_unmap_follows(z, s, id);
                }
            },
            Ok(_done) => {
                map_pages_from_follows(z, s, id, device, page, off.saturating_add(n), total);
            },
        }
    }
}

/// [`Sim::va_release`] continues the history.
pub proof fn va_release_follows(z: SimState, s0: SimState, id: AllocId)
    requires
        follows(z, s0),
    ensures
        follows(z, s0.va_release(id).0),
{
    let s = s0;
    if !(s.vmm_idle.contains(id)) {
        match s.fail_if_capturing("cannot capture alloc/free") {
            Err(e) => {},
            Ok(_v) => match s.alloc_ref(id) {
                Err(e) => {},
                Ok(a) => {
                    if !(!a.live || !a.vmm) {
                        if a.devices.len() > 0 {
                            va_unmap_follows(z, s, id);
                            match s.va_unmap(id) {
                                (s, Err(e)) => {},
                                (s, Ok(_v)) => {
                                    park_idle_va_follows(z, s, id);
                                },
                            }
                        } else {
                            park_idle_va_follows(z, s, id);
                        }
                    }
                },
            },
        }
    }
}

/// [`Sim::multicast_create`] continues the history.
pub proof fn multicast_create_follows(z: SimState, s0: SimState, bytes: u64, num_devices: u32)
    requires
        follows(z, s0),
    ensures
        follows(z, s0.multicast_create(bytes, num_devices).0),
{
    let s = s0;
    if !(bytes == 0) {
        if !(num_devices < 2) {
            match s.check_mc_align(bytes) {
                Err(e) => {},
                Ok(_v) => match s.fail_if_capturing("cannot capture alloc/free") {
                    Err(e) => {},
                    Ok(_v) => {
                        tick_follows(z, s, s.first_alloc_ns());
                        let s = s.tick(s.first_alloc_ns());
                        let id = MulticastId(s.next.mc);
                        assert(
                            follows(
                                z,
                                SimState {
                                    next: NextIds { mc: s.next.mc.saturating_add(1), ..s.next },
                                    ..s
                                },
                            )
                        ) by {
                            reveal(follows);
                        }
                        let s = SimState {
                            next: NextIds { mc: s.next.mc.saturating_add(1), ..s.next },
                            ..s
                        };
                        assert(
                            follows(
                                z,
                                SimState {
                                    multicasts: s.multicasts.insert(
                                        id,
                                        MulticastView {
                                            bytes,
                                            n_dev: num_devices,
                                            devices: Seq::empty(),
                                            binds: Map::empty(),
                                            maps: 0,
                                        },
                                    ),
                                    ..s
                                },
                            )
                        ) by {
                            reveal(follows);
                        }
                    },
                },
            }
        }
    }
}

/// [`Sim::multicast_add_device`] continues the history.
pub proof fn multicast_add_device_follows(
    z: SimState,
    s0: SimState,
    mc: MulticastId,
    device: DeviceId,
)
    requires
        follows(z, s0),
    ensures
        follows(z, s0.multicast_add_device(mc, device).0),
{
    let s = s0;
    match s.fail_if_capturing("cannot capture alloc/free") {
        Err(e) => {},
        Ok(_v) => match s.profile.gpu(device) {
            Err(e) => {},
            Ok(_gpu) => match s.mc_ref(mc) {
                Err(e) => {},
                Ok(obj) => {
                    if !(!vacant(obj.binds.dom()) || obj.maps > 0) {
                        if !(obj.devices.contains(device)) {
                            if !(clamp_u32((obj.devices.len()as usize)) >= obj.n_dev) {
                                let team = obj.devices;
                                let team = team.push(device);
                                let full = team.len() <= 0xffff_ffff && clamp_u32(
                                    (team.len()as usize),
                                ) == obj.n_dev;
                                match s.mc_ref(mc) {
                                    Err(e) => {},
                                    Ok(m) => {
                                        let m = MulticastView {
                                            devices: m.devices.push(device),
                                            ..m
                                        };
                                        assert(
                                            follows(
                                                z,
                                                SimState {
                                                    multicasts: s.multicasts.insert(mc, m),
                                                    ..s
                                                },
                                            )
                                        ) by {
                                            reveal(follows);
                                        }
                                        let s = SimState {
                                            multicasts: s.multicasts.insert(mc, m),
                                            ..s
                                        };
                                        tick_follows(z, s, 1);
                                    },
                                }
                            }
                        }
                    }
                },
            },
        },
    }
}

/// [`Sim::multicast_bind_mem`] continues the history.
pub proof fn multicast_bind_mem_follows(
    z: SimState,
    s0: SimState,
    mc: MulticastId,
    device: DeviceId,
    handle: MemHandleId,
)
    requires
        follows(z, s0),
    ensures
        follows(z, s0.multicast_bind_mem(mc, device, handle).0),
{
    let s = s0;
    match s.fail_if_capturing("cannot capture alloc/free") {
        Err(e) => {},
        Ok(_v) => match s.handle_ref(handle) {
            Err(e) => {},
            Ok(h) => {
                if !(h.refs == 0) {
                    if !(h.device != device) {
                        let bytes = h.bytes;
                        match s.bindable(mc, device, bytes) {
                            Err(e) => {},
                            Ok(_v) => match s.mc_ref(mc) {
                                Err(e) => {},
                                Ok(m) => {
                                    let m = MulticastView {
                                        binds: m.binds.insert(device, handle),
                                        ..m
                                    };
                                    assert(
                                        follows(
                                            z,
                                            SimState {
                                                multicasts: s.multicasts.insert(mc, m),
                                                ..s
                                            },
                                        )
                                    ) by {
                                        reveal(follows);
                                    }
                                    let s = SimState {
                                        multicasts: s.multicasts.insert(mc, m),
                                        ..s
                                    };
                                    tick_follows(z, s, 1);
                                },
                            },
                        }
                    }
                }
            },
        },
    }
}

/// [`Sim::va_map_multicast`] continues the history.
pub proof fn va_map_multicast_follows(
    z: SimState,
    s0: SimState,
    id: AllocId,
    device: DeviceId,
    offset: u64,
    mc: MulticastId,
)
    requires
        follows(z, s0),
    ensures
        follows(z, s0.va_map_multicast(id, device, offset, mc).0),
{
    let s = s0;
    match s.fail_if_capturing("cannot capture alloc/free") {
        Err(e) => {},
        Ok(_v) => match s.mc_mappable(mc, device) {
            Err(e) => {},
            Ok(bytes) => match s.span_mappable(id, device, offset, bytes) {
                Err(e) => {},
                Ok(_v) => {
                    if !(s.mc_vas.contains_key(id)) {
                        pay_alloc_follows(z, s, device);
                        match s.pay_alloc(device) {
                            (s, Err(e)) => {},
                            (s, Ok(_v)) => {
                                add_map_follows(z, s, id, device, offset, bytes);
                                match s.add_map(id, device, offset, bytes) {
                                    (s, Err(e)) => {},
                                    (s, Ok(_v)) => match s.mc_ref(mc) {
                                        Err(e) => {},
                                        Ok(m) => {
                                            let m = MulticastView {
                                                maps: m.maps.saturating_add(1),
                                                ..m
                                            };
                                            assert(
                                                follows(
                                                    z,
                                                    SimState {
                                                        multicasts: s.multicasts.insert(mc, m),
                                                        ..s
                                                    },
                                                )
                                            ) by {
                                                reveal(follows);
                                            }
                                            let s = SimState {
                                                multicasts: s.multicasts.insert(mc, m),
                                                ..s
                                            };
                                            rest_follows(
                                                z,
                                                s,
                                                SimState { mc_vas: s.mc_vas.insert(id, mc), ..s },
                                            );
                                            let s = SimState {
                                                mc_vas: s.mc_vas.insert(id, mc),
                                                ..s
                                            };
                                            team_piece_follows(
                                                z,
                                                s,
                                                Piece(id, device, offset, bytes),
                                            );
                                        },
                                    },
                                }
                            },
                        }
                    }
                },
            },
        },
    }
}

/// [`Sim::handle_for_bind`] continues the history.
pub proof fn handle_for_bind_follows(z: SimState, s0: SimState, id: AllocId, device: DeviceId)
    requires
        follows(z, s0),
    ensures
        follows(z, s0.handle_for_bind(id, device).0),
{
    let s = s0;
    match s.alloc_ref(id) {
        Err(e) => {},
        Ok(a) => {
            let bytes = a.bytes;
            match s.vmm_handle_at.get(Piece(id, device, 0, bytes)) {
                Some(h) => {},
                None => {
                    va_retain_handle_follows(z, s, id, device, 0);
                },
            }
        },
    }
}

/// [`Sim::add_team`] continues the history.
pub proof fn add_team_follows(z: SimState, s0: SimState, mc: MulticastId, team: Seq<DeviceId>)
    requires
        follows(z, s0),
    ensures
        follows(z, s0.add_team(mc, team).0),
{
    let s = s0;
    add_team_from_follows(z, s, mc, team, 0);
}

/// [`Sim::add_team`] continues the history, from position `i` on.
pub proof fn add_team_from_follows(
    z: SimState,
    s0: SimState,
    mc: MulticastId,
    team: Seq<DeviceId>,
    i: int,
)
    requires
        follows(z, s0),
    ensures
        follows(z, s0.add_team_from(mc, team, i).0),
    decreases team.len() - i,
{
    let s = s0;
    if 0 <= i < team.len() {
        multicast_add_device_follows(z, s, mc, team[i]);
        match s.multicast_add_device(mc, team[i]) {
            (s, Err(e)) => {},
            (s, Ok(_v)) => {
                add_team_from_follows(z, s, mc, team, i + 1);
            },
        }
    }
}

/// [`Sim::bind_team`] continues the history.
pub proof fn bind_team_follows(
    z: SimState,
    s0: SimState,
    mc: MulticastId,
    id: AllocId,
    team: Seq<DeviceId>,
)
    requires
        follows(z, s0),
    ensures
        follows(z, s0.bind_team(mc, id, team).0),
{
    let s = s0;
    bind_team_from_follows(z, s, mc, id, team, 0);
}

/// [`Sim::bind_team`] continues the history, from position `i` on.
pub proof fn bind_team_from_follows(
    z: SimState,
    s0: SimState,
    mc: MulticastId,
    id: AllocId,
    team: Seq<DeviceId>,
    i: int,
)
    requires
        follows(z, s0),
    ensures
        follows(z, s0.bind_team_from(mc, id, team, i).0),
    decreases team.len() - i,
{
    let s = s0;
    if 0 <= i < team.len() {
        handle_for_bind_follows(z, s, id, team[i]);
        match s.handle_for_bind(id, team[i]) {
            (s, Err(e)) => {},
            (s, Ok(h)) => {
                multicast_bind_mem_follows(z, s, mc, team[i], h);
                match s.multicast_bind_mem(mc, team[i], h) {
                    (s, Err(e)) => {},
                    (s, Ok(_v)) => {
                        bind_team_from_follows(z, s, mc, id, team, i + 1);
                    },
                }
            },
        }
    }
}

/// [`Sim::multicast_store`] continues the history.
pub proof fn multicast_store_follows(
    z: SimState,
    s0: SimState,
    src: DeviceId,
    id: AllocId,
    dests: Seq<DeviceId>,
    stream: StreamId,
)
    requires
        follows(z, s0),
    ensures
        follows(z, s0.multicast_store(src, id, dests, stream).0),
{
    let s = s0;
    match s.fail_if_capturing("cannot capture alloc/free") {
        Err(e) => {},
        Ok(_v) => match s.alloc_ref(id) {
            Err(e) => {},
            Ok(a) => {
                let bytes = a.bytes;
                match s.multicast_team(src, dests) {
                    Err(e) => {},
                    Ok(team) => match s.nvlink_clique(team) {
                        Err(e) => {},
                        Ok(_v) => match s.require_whole_maps(id, team) {
                            Err(e) => {},
                            Ok(_v) => {
                                let n = if team.len() > 0xffff_ffff {
                                    0
                                } else {
                                    clamp_u32((team.len()as usize))
                                };
                                multicast_create_follows(z, s, bytes, n);
                                match s.multicast_create(bytes, n) {
                                    (s, Err(e)) => {},
                                    (s, Ok(mc)) => {
                                        add_team_follows(z, s, mc, team);
                                        match s.add_team(mc, team) {
                                            (s, Err(e)) => {},
                                            (s, Ok(_v)) => {
                                                bind_team_follows(z, s, mc, id, team);
                                                match s.bind_team(mc, id, team) {
                                                    (s, Err(e)) => {},
                                                    (s, Ok(_v)) => {
                                                        va_reserve_follows(z, s, bytes);
                                                        match s.va_reserve(bytes) {
                                                            (s, Err(e)) => {},
                                                            (s, Ok(va)) => {
                                                                va_map_multicast_follows(
                                                                    z,
                                                                    s,
                                                                    va,
                                                                    src,
                                                                    0,
                                                                    mc,
                                                                );
                                                                match s.va_map_multicast(va, src, 0, mc) {
                                                                    (s, Err(e)) => {},
                                                                    (s, Ok(_v)) => {
                                                                        let reads = seq![id];
                                                                        let writes = seq![va];
                                                                        kernel_follows(
                                                                            z,
                                                                            s,
                                                                            src,
                                                                            KernelKind::other(0, bytes),
                                                                            reads,
                                                                            writes,
                                                                            stream,
                                                                        );
                                                                    },
                                                                }
                                                            },
                                                        }
                                                    },
                                                }
                                            },
                                        }
                                    },
                                }
                            },
                        },
                    },
                }
            },
        },
    }
}

} // verus!
