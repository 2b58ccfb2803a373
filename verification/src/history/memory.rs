//! Histories of the operations in `sim::memory`.
use vstd::prelude::*;
use crate::history::{alloc_follows, follows, rest_follows};
use crate::history::access::tick_follows;
use crate::history::charge::{
    add_alloc_follows, charge_pin_follows, clear_mailbox_follows, drop_ipc_import_follows,
    drop_share_import_follows, insert_host_follows, refund_device_follows, refund_pin_follows,
    reserve_now_follows,
};
use crate::history::clone::refund_devices_follows;
use crate::history::pools::pay_alloc_follows;
use crate::history::run::{synchronize_device_follows, synchronize_follows};
use crate::history::shape::event_follows;
use crate::ids::{AllocId, DeviceId, EventId, IpcEventHandleId, IpcHandleId};
use crate::list::without;
use crate::num::mul_sat;
use crate::ops::{HostAllocFlags, MemAdvise};
use crate::profile::align_up;
use crate::sim::SimState;
use crate::state::{AllocView, Attach, Ev, NextIds, Preferred};

verus! {

/// [`Sim::malloc`] continues the history.
pub proof fn malloc_follows(z: SimState, s0: SimState, device: DeviceId, bytes: u64)
    requires
        follows(z, s0),
    ensures
        follows(z, s0.malloc(device, bytes).0),
{
    let s = s0;
    if !(bytes == 0) {
        match s.fail_if_capturing("cannot capture alloc/free") {
            Err(e) => {},
            Ok(_v) => match s.profile.gpu(device) {
                Err(e) => {},
                Ok(_gpu) => {
                    synchronize_device_follows(z, s, device);
                    match s.synchronize_device(device) {
                        (s, Err(e)) => {},
                        (s, Ok(_v)) => {
                            reserve_now_follows(z, s, device, bytes);
                        },
                    }
                },
            },
        }
    }
}

/// [`Sim::malloc_pitch`] continues the history.
pub proof fn malloc_pitch_follows(
    z: SimState,
    s0: SimState,
    device: DeviceId,
    width: u64,
    height: u64,
)
    requires
        follows(z, s0),
    ensures
        follows(z, s0.malloc_pitch(device, width, height).0),
{
    let s = s0;
    if !(width == 0 || height == 0) {
        let pitch = align_up(width, 512);
        malloc_follows(z, s, device, mul_sat(pitch, height));
    }
}

/// [`Sim::malloc_3d`] continues the history.
pub proof fn malloc_3d_follows(
    z: SimState,
    s0: SimState,
    device: DeviceId,
    width: u64,
    height: u64,
    depth: u64,
)
    requires
        follows(z, s0),
    ensures
        follows(z, s0.malloc_3d(device, width, height, depth).0),
{
    let s = s0;
    if !(width == 0 || height == 0 || depth == 0) {
        let pitch = align_up(width, 512);
        malloc_follows(z, s, device, mul_sat(mul_sat(pitch, height), depth));
    }
}

/// [`Sim::alloc_host_pinned`] continues the history.
pub proof fn alloc_host_pinned_follows(z: SimState, s0: SimState, bytes: u64)
    requires
        follows(z, s0),
    ensures
        follows(z, s0.alloc_host_pinned(bytes).0),
{
    let s = s0;
    alloc_host_with_flags_follows(z, s, bytes, HostAllocFlags::DEFAULT);
}

/// [`Sim::alloc_host`] continues the history.
pub proof fn alloc_host_follows(z: SimState, s0: SimState, bytes: u64)
    requires
        follows(z, s0),
    ensures
        follows(z, s0.alloc_host(bytes).0),
{
    let s = s0;
    insert_host_follows(z, s, bytes, true, false, false, false);
}

/// [`Sim::alloc_host_mapped`] continues the history.
pub proof fn alloc_host_mapped_follows(z: SimState, s0: SimState, bytes: u64)
    requires
        follows(z, s0),
    ensures
        follows(z, s0.alloc_host_mapped(bytes).0),
{
    let s = s0;
    alloc_host_with_flags_follows(z, s, bytes, HostAllocFlags::MAPPED);
}

/// [`Sim::alloc_host_with_flags`] continues the history.
pub proof fn alloc_host_with_flags_follows(z: SimState, s0: SimState, bytes: u64, flags: u32)
    requires
        follows(z, s0),
    ensures
        follows(z, s0.alloc_host_with_flags(bytes, flags).0),
{
    let s = s0;
    if !(flags&!HostAllocFlags::MAPPED != 0) {
        let mapped = flags&HostAllocFlags::MAPPED != 0;
        insert_host_follows(z, s, bytes, false, true, mapped, false);
    }
}

/// [`Sim::alloc_managed`] continues the history.
pub proof fn alloc_managed_follows(z: SimState, s0: SimState, bytes: u64)
    requires
        follows(z, s0),
    ensures
        follows(z, s0.alloc_managed(bytes).0),
{
    let s = s0;
    if !(bytes == 0) {
        match s.fail_if_capturing("cannot capture alloc/free") {
            Err(e) => {},
            Ok(_v) => {
                tick_follows(z, s, s.first_alloc_ns());
                let s = s.tick(s.first_alloc_ns());
                let a = AllocView::blank(bytes);
                let a = AllocView { live: true, ..a };
                let a = AllocView { managed: true, ..a };
                add_alloc_follows(z, s, a);
            },
        }
    }
}

/// [`Sim::alloc_managed_host`] continues the history.
pub proof fn alloc_managed_host_follows(z: SimState, s0: SimState, bytes: u64)
    requires
        follows(z, s0),
    ensures
        follows(z, s0.alloc_managed_host(bytes).0),
{
    let s = s0;
    alloc_managed_follows(z, s, bytes);
    match s.alloc_managed(bytes) {
        (s, Err(e)) => {},
        (s, Ok(id)) => match s.alloc_ref(id) {
            Err(e) => {},
            Ok(a) => {
                alloc_follows(z, s, id, AllocView { attach: Attach::Host, ..a });
            },
        },
    }
}

/// [`Sim::set_advice`] continues the history.
pub proof fn set_advice_follows(
    z: SimState,
    s0: SimState,
    alloc: AllocId,
    advice: MemAdvise,
    device: DeviceId,
)
    requires
        follows(z, s0),
    ensures
        follows(z, s0.set_advice(alloc, advice, device).0),
{
    reveal(SimState::set_advice);
    let s = s0;
    match advice {
        MemAdvise::SetReadMostly => match s.alloc_ref(alloc) {
            Err(e) => {},
            Ok(a) => {
                alloc_follows(z, s, alloc, AllocView { read_mostly: true, ..a });
            },
        },
        MemAdvise::UnsetReadMostly => match s.alloc_ref(alloc) {
            Err(e) => {},
            Ok(a) => {
                alloc_follows(z, s, alloc, AllocView { read_mostly: false, ..a });
            },
        },
        MemAdvise::SetAccessedBy => match s.profile.gpu(device) {
            Err(e) => {},
            Ok(_gpu) => match s.alloc_ref(alloc) {
                Err(e) => {},
                Ok(a) => {
                    let a = AllocView { accessed_by: a.accessed_by.insert(device), ..a };
                    alloc_follows(z, s, alloc, a);
                },
            },
        },
        MemAdvise::UnsetAccessedBy => match s.profile.gpu(device) {
            Err(e) => {},
            Ok(_gpu) => match s.alloc_ref(alloc) {
                Err(e) => {},
                Ok(a) => {
                    let a = AllocView { accessed_by: a.accessed_by.remove(device), ..a };
                    alloc_follows(z, s, alloc, a);
                },
            },
        },
        MemAdvise::SetPreferredLocation => match s.profile.gpu(device) {
            Err(e) => {},
            Ok(_gpu) => match s.alloc_ref(alloc) {
                Err(e) => {},
                Ok(a) => {
                    alloc_follows(
                        z,
                        s,
                        alloc,
                        AllocView { preferred: Preferred::Gpu(device), ..a },
                    );
                },
            },
        },
        MemAdvise::SetPreferredLocationHost => match s.alloc_ref(alloc) {
            Err(e) => {},
            Ok(a) => {
                alloc_follows(z, s, alloc, AllocView { preferred: Preferred::Host, ..a });
            },
        },
        MemAdvise::UnsetPreferredLocation => match s.alloc_ref(alloc) {
            Err(e) => {},
            Ok(a) => {
                alloc_follows(z, s, alloc, AllocView { preferred: Preferred::Nowhere, ..a });
            },
        },
    }
}

/// [`Sim::mem_advise`] continues the history.
pub proof fn mem_advise_follows(
    z: SimState,
    s0: SimState,
    alloc: AllocId,
    advice: MemAdvise,
    device: DeviceId,
)
    requires
        follows(z, s0),
    ensures
        follows(z, s0.mem_advise(alloc, advice, device).0),
{
    let s = s0;
    match s.fail_if_capturing("cannot capture mem advise") {
        Err(e) => {},
        Ok(_v) => match s.alloc_ref(alloc) {
            Err(e) => {},
            Ok(a) => {
                if !(!a.live || !a.managed) {
                    set_advice_follows(z, s, alloc, advice, device);
                    match s.set_advice(alloc, advice, device) {
                        (s, Err(e)) => {},
                        (s, Ok(_v)) => {
                            tick_follows(z, s, s.first_alloc_ns());
                        },
                    }
                }
            },
        },
    }
}

/// [`Sim::drop_managed_copy`] continues the history.
pub proof fn drop_managed_copy_follows(z: SimState, s0: SimState, alloc: AllocId, device: DeviceId)
    requires
        follows(z, s0),
    ensures
        follows(z, s0.drop_managed_copy(alloc, device).0),
{
    let s = s0;
    match s.fail_if_capturing("cannot capture alloc/free") {
        Err(e) => {},
        Ok(_v) => match s.profile.gpu(device) {
            Err(e) => {},
            Ok(_gpu) => match s.alloc_ref(alloc) {
                Err(e) => {},
                Ok(a) => {
                    if !(!a.live || !a.managed) {
                        if !(!a.read_mostly) {
                            if !(a.leases > 0) {
                                if !(!a.devices.contains(device)) {
                                    if !(a.devices.len() < 2) {
                                        let bytes = a.bytes;
                                        refund_device_follows(z, s, device, alloc, bytes);
                                        match s.refund_device(device, alloc, bytes) {
                                            (s, Err(e)) => {},
                                            (s, Ok(_v)) => match s.alloc_ref(alloc) {
                                                Err(e) => {},
                                                Ok(b) => {
                                                    let b = AllocView {
                                                        devices: without(b.devices, device),
                                                        ..b
                                                    };
                                                    alloc_follows(z, s, alloc, b);
                                                    let s = SimState {
                                                        allocs: s.allocs.insert(alloc, b),
                                                        ..s
                                                    };
                                                    tick_follows(z, s, 1);
                                                },
                                            },
                                        }
                                    }
                                }
                            }
                        }
                    }
                },
            },
        },
    }
}

/// [`Sim::host_register`] continues the history.
pub proof fn host_register_follows(z: SimState, s0: SimState, id: AllocId)
    requires
        follows(z, s0),
    ensures
        follows(z, s0.host_register(id).0),
{
    let s = s0;
    host_register_with_flags_follows(z, s, id, HostAllocFlags::DEFAULT);
}

/// [`Sim::host_register_mapped`] continues the history.
pub proof fn host_register_mapped_follows(z: SimState, s0: SimState, id: AllocId)
    requires
        follows(z, s0),
    ensures
        follows(z, s0.host_register_mapped(id).0),
{
    let s = s0;
    host_register_with_flags_follows(z, s, id, HostAllocFlags::MAPPED);
}

/// [`Sim::host_register_with_flags`] continues the history.
pub proof fn host_register_with_flags_follows(z: SimState, s0: SimState, id: AllocId, flags: u32)
    requires
        follows(z, s0),
    ensures
        follows(z, s0.host_register_with_flags(id, flags).0),
{
    let s = s0;
    if !(flags&!HostAllocFlags::MAPPED != 0) {
        host_register_flags_follows(z, s, id, flags&HostAllocFlags::MAPPED != 0);
    }
}

/// [`Sim::host_register_flags`] continues the history.
pub proof fn host_register_flags_follows(z: SimState, s0: SimState, id: AllocId, mapped: bool)
    requires
        follows(z, s0),
    ensures
        follows(z, s0.host_register_flags(id, mapped).0),
{
    reveal(SimState::host_register_flags);
    let s = s0;
    match s.fail_if_capturing("cannot capture host register") {
        Err(e) => {},
        Ok(_v) => match s.alloc_ref(id) {
            Err(e) => {},
            Ok(a) => {
                if !(a.leases > 0) {
                    if !(!a.live || !a.host_pageable || a.host_pinned) {
                        let bytes = a.bytes;
                        charge_pin_follows(z, s, bytes);
                        match s.charge_pin(bytes) {
                            (s, Err(e)) => {},
                            (s, Ok(_v)) => {
                                tick_follows(z, s, s.first_alloc_ns());
                                let s = s.tick(s.first_alloc_ns());
                                match s.alloc_ref(id) {
                                    Err(e) => {},
                                    Ok(b) => {
                                        let b = AllocView {
                                            host_pageable: false,
                                            host_pinned: true,
                                            host_mapped: mapped,
                                            host_registered: true,
                                            ..b
                                        };
                                        alloc_follows(z, s, id, b);
                                    },
                                }
                            },
                        }
                    }
                }
            },
        },
    }
}

/// [`Sim::host_unregister`] continues the history.
pub proof fn host_unregister_follows(z: SimState, s0: SimState, id: AllocId)
    requires
        follows(z, s0),
    ensures
        follows(z, s0.host_unregister(id).0),
{
    let s = s0;
    match s.fail_if_capturing("cannot capture host register") {
        Err(e) => {},
        Ok(_v) => {
            synchronize_follows(z, s);
            match s.synchronize() {
                (s, Err(e)) => {},
                (s, Ok(_v)) => match s.alloc_ref(id) {
                    Err(e) => {},
                    Ok(a) => {
                        if !(a.leases > 0) {
                            if !(!a.live || !a.host_registered) {
                                if !(a.devices.len() > 0) {
                                    let bytes = a.bytes;
                                    refund_pin_follows(z, s, bytes);
                                    let s = s.refund_pin(bytes);
                                    match s.alloc_ref(id) {
                                        Err(e) => {},
                                        Ok(b) => {
                                            let b = AllocView {
                                                host_pinned: false,
                                                host_mapped: false,
                                                host_registered: false,
                                                host_pageable: true,
                                                ..b
                                            };
                                            alloc_follows(z, s, id, b);
                                        },
                                    }
                                }
                            }
                        }
                    },
                },
            }
        },
    }
}

/// [`Sim::free_host`] continues the history.
pub proof fn free_host_follows(z: SimState, s0: SimState, id: AllocId)
    requires
        follows(z, s0),
    ensures
        follows(z, s0.free_host(id).0),
{
    let s = s0;
    match s.fail_if_capturing("cannot capture alloc/free") {
        Err(e) => {},
        Ok(_v) => {
            synchronize_follows(z, s);
            match s.synchronize() {
                (s, Err(e)) => {},
                (s, Ok(_v)) => match s.alloc_ref(id) {
                    Err(e) => {},
                    Ok(a) => {
                        if !(a.leases > 0) {
                            if !(!a.live || !a.host_pageable || a.host_pinned) {
                                if !(a.devices.len() > 0) {
                                    match s.alloc_ref(id) {
                                        Err(e) => {},
                                        Ok(b) => {
                                            let b = AllocView {
                                                live: false,
                                                host_pageable: false,
                                                ..b
                                            };
                                            alloc_follows(z, s, id, b);
                                            let s = SimState {
                                                allocs: s.allocs.insert(id, b),
                                                ..s
                                            };
                                            clear_mailbox_follows(z, s, id);
                                        },
                                    }
                                }
                            }
                        }
                    },
                },
            }
        },
    }
}

/// [`Sim::free_host_pinned`] continues the history.
pub proof fn free_host_pinned_follows(z: SimState, s0: SimState, id: AllocId)
    requires
        follows(z, s0),
    ensures
        follows(z, s0.free_host_pinned(id).0),
{
    let s = s0;
    match s.fail_if_capturing("cannot capture alloc/free") {
        Err(e) => {},
        Ok(_v) => {
            synchronize_follows(z, s);
            match s.synchronize() {
                (s, Err(e)) => {},
                (s, Ok(_v)) => match s.alloc_ref(id) {
                    Err(e) => {},
                    Ok(a) => {
                        if !(a.leases > 0) {
                            if !(!a.live || !a.host_pinned || a.host_registered) {
                                if !(a.devices.len() > 0) {
                                    let bytes = a.bytes;
                                    refund_pin_follows(z, s, bytes);
                                    let s = s.refund_pin(bytes);
                                    match s.alloc_ref(id) {
                                        Err(e) => {},
                                        Ok(b) => {
                                            let b = AllocView {
                                                live: false,
                                                host_pinned: false,
                                                host_mapped: false,
                                                host_pageable: false,
                                                ..b
                                            };
                                            alloc_follows(z, s, id, b);
                                            let s = SimState {
                                                allocs: s.allocs.insert(id, b),
                                                ..s
                                            };
                                            clear_mailbox_follows(z, s, id);
                                        },
                                    }
                                }
                            }
                        }
                    },
                },
            }
        },
    }
}

/// [`Sim::synchronize_holders`] continues the history.
pub proof fn synchronize_holders_follows(z: SimState, s0: SimState, holders: Seq<DeviceId>)
    requires
        follows(z, s0),
    ensures
        follows(z, s0.synchronize_holders(holders).0),
{
    let s = s0;
    if holders.len() == 0 {
        synchronize_follows(z, s);
    } else {
        synchronize_holders_from_follows(z, s, holders, 0);
    }
}

/// [`Sim::synchronize_holders`] continues the history, from position `i` on.
pub proof fn synchronize_holders_from_follows(
    z: SimState,
    s0: SimState,
    holders: Seq<DeviceId>,
    i: int,
)
    requires
        follows(z, s0),
    ensures
        follows(z, s0.synchronize_holders_from(holders, i).0),
    decreases holders.len() - i,
{
    let s = s0;
    if 0 <= i < holders.len() {
        synchronize_device_follows(z, s, holders[i]);
        match s.synchronize_device(holders[i]) {
            (s, Err(e)) => {},
            (s, Ok(_v)) => {
                synchronize_holders_from_follows(z, s, holders, i + 1);
            },
        }
    }
}

/// [`Sim::free_sync`] continues the history.
pub proof fn free_sync_follows(z: SimState, s0: SimState, id: AllocId)
    requires
        follows(z, s0),
    ensures
        follows(z, s0.free_sync(id).0),
{
    let s = s0;
    match s.fail_if_capturing("cannot capture alloc/free") {
        Err(e) => {},
        Ok(_v) => match s.alloc_ref(id) {
            Err(e) => {},
            Ok(a) => {
                if !(a.host_pinned || a.host_pageable || a.vmm) {
                    let holders = a.devices;
                    synchronize_holders_follows(z, s, holders);
                    match s.synchronize_holders(holders) {
                        (s, Err(e)) => {},
                        (s, Ok(_v)) => {
                            free_now_follows(z, s, id);
                        },
                    }
                }
            },
        },
    }
}

/// [`Sim::free_now`] continues the history.
pub proof fn free_now_follows(z: SimState, s0: SimState, id: AllocId)
    requires
        follows(z, s0),
    ensures
        follows(z, s0.free_now(id).0),
{
    reveal(SimState::free_now);
    let s = s0;
    match s.alloc_ref(id) {
        Err(e) => {},
        Ok(a) => {
            if !(a.leases > 0) {
                if a.ipc_src.is_some() {
                    drop_ipc_import_follows(z, s, id);
                } else if a.share_src.is_some() {
                    drop_share_import_follows(z, s, id);
                } else if !(a.ipc_opens > 0) {
                    if !(a.share_opens > 0) {
                        if !(!a.live || a.host_pinned) {
                            let devices = a.devices;
                            let bytes = a.bytes;
                            refund_devices_follows(z, s, devices, id, bytes);
                            match s.refund_devices(devices, id, bytes) {
                                (s, Err(e)) => {},
                                (s, Ok(_v)) => match s.alloc_ref(id) {
                                    Err(e) => {},
                                    Ok(b) => {
                                        let b = AllocView {
                                            devices: Seq::empty(),
                                            live: false,
                                            ..b
                                        };
                                        alloc_follows(z, s, id, b);
                                        let s = SimState { allocs: s.allocs.insert(id, b), ..s };
                                        clear_mailbox_follows(z, s, id);
                                    },
                                },
                            }
                        }
                    }
                }
            }
        },
    }
}

/// [`Sim::ipc_get`] continues the history.
pub proof fn ipc_get_follows(z: SimState, s0: SimState, id: AllocId)
    requires
        follows(z, s0),
    ensures
        follows(z, s0.ipc_get(id).0),
{
    let s = s0;
    match s.fail_if_capturing("cannot capture ipc") {
        Err(e) => {},
        Ok(_v) => match s.device_ipc_ok(id) {
            Err(e) => {},
            Ok(_v) => match s.holder_of(id, "not device ipc") {
                Err(e) => {},
                Ok(device) => match s.ipc_handle_of(id) {
                    Some(h) => {},
                    _ => {
                        pay_alloc_follows(z, s, device);
                        match s.pay_alloc(device) {
                            (s, Err(e)) => {},
                            (s, Ok(_v)) => {
                                let h = IpcHandleId(s.next.ipc);
                                assert(
                                    follows(
                                        z,
                                        SimState {
                                            next: NextIds {
                                                ipc: s.next.ipc.saturating_add(1),
                                                ..s.next
                                            },
                                            ..s
                                        },
                                    )
                                ) by {
                                    reveal(follows);
                                }
                                let s = SimState {
                                    next: NextIds { ipc: s.next.ipc.saturating_add(1), ..s.next },
                                    ..s
                                };
                                rest_follows(
                                    z,
                                    s,
                                    SimState { ipc_handles: s.ipc_handles.insert(h, id), ..s },
                                );
                            },
                        }
                    },
                },
            },
        },
    }
}

/// [`Sim::ipc_open`] continues the history.
#[verifier::rlimit(60)]
pub proof fn ipc_open_follows(z: SimState, s0: SimState, device: DeviceId, handle: IpcHandleId)
    requires
        follows(z, s0),
    ensures
        follows(z, s0.ipc_open(device, handle).0),
{
    let s = s0;
    match s.fail_if_capturing("cannot capture ipc") {
        Err(e) => {},
        Ok(_v) => match s.ipc_handles.get(handle) {
            Some(x) => {
                let src = x;
                match s.alloc_ref(src) {
                    Err(e) => {},
                    Ok(a) => {
                        if !(!a.live) {
                            if !(!a.devices.contains(device)) {
                                let opens = a.ipc_opens;
                                let alias = AllocView::blank(a.bytes);
                                let alias = AllocView { devices: a.devices, ..alias };
                                let alias = AllocView { live: true, ..alias };
                                let alias = AllocView { ipc_src: Some(src), ..alias };
                                pay_alloc_follows(z, s, device);
                                match s.pay_alloc(device) {
                                    (s, Err(e)) => {},
                                    (s, Ok(_v)) => match s.alloc_ref(src) {
                                        Err(e) => {},
                                        Ok(a) => {
                                            alloc_follows(
                                                z,
                                                s,
                                                src,
                                                AllocView {
                                                    ipc_opens: opens.saturating_add(1),
                                                    ..a
                                                },
                                            );
                                            let s = SimState {
                                                allocs: s.allocs.insert(
                                                    src,
                                                    AllocView {
                                                        ipc_opens: opens.saturating_add(1),
                                                        ..a
                                                    },
                                                ),
                                                ..s
                                            };
                                            add_alloc_follows(z, s, alias);
                                        },
                                    },
                                }
                            }
                        }
                    },
                }
            },
            None => {},
        },
    }
}

/// [`Sim::ipc_close`] continues the history.
pub proof fn ipc_close_follows(z: SimState, s0: SimState, id: AllocId)
    requires
        follows(z, s0),
    ensures
        follows(z, s0.ipc_close(id).0),
{
    let s = s0;
    match s.fail_if_capturing("cannot capture ipc") {
        Err(e) => {},
        Ok(_v) => {
            drop_ipc_import_follows(z, s, id);
        },
    }
}

/// [`Sim::ipc_get_event`] continues the history.
pub proof fn ipc_get_event_follows(z: SimState, s0: SimState, event: EventId)
    requires
        follows(z, s0),
    ensures
        follows(z, s0.ipc_get_event(event).0),
{
    let s = s0;
    match s.fail_if_capturing("cannot capture ipc") {
        Err(e) => {},
        Ok(_v) => match s.event_ipc_ok(event) {
            Err(e) => {},
            Ok(_v) => match s.ipc_event_handle_of(event) {
                Some(h) => {},
                _ => {
                    tick_follows(z, s, 1);
                    let s = s.tick(1);
                    let h = IpcEventHandleId(s.next.ipc_event);
                    assert(
                        follows(
                            z,
                            SimState {
                                next: NextIds {
                                    ipc_event: s.next.ipc_event.saturating_add(1),
                                    ..s.next
                                },
                                ..s
                            },
                        )
                    ) by {
                        reveal(follows);
                    }
                    let s = SimState {
                        next: NextIds { ipc_event: s.next.ipc_event.saturating_add(1), ..s.next },
                        ..s
                    };
                    rest_follows(
                        z,
                        s,
                        SimState { ipc_event_handles: s.ipc_event_handles.insert(h, event), ..s },
                    );
                },
            },
        },
    }
}

/// [`Sim::ipc_open_event`] continues the history.
pub proof fn ipc_open_event_follows(z: SimState, s0: SimState, handle: IpcEventHandleId)
    requires
        follows(z, s0),
    ensures
        follows(z, s0.ipc_open_event(handle).0),
{
    let s = s0;
    match s.fail_if_capturing("cannot capture ipc") {
        Err(e) => {},
        Ok(_v) => match s.ipc_event_handles.get(handle) {
            Some(x) => {
                let src = x;
                match s.event_ipc_ok(src) {
                    Err(e) => {},
                    Ok(_v) => {
                        tick_follows(z, s, 1);
                        let s = s.tick(1);
                        alloc_imported_event_follows(z, s);
                        match s.alloc_imported_event() {
                            (s, Err(e)) => {},
                            (s, Ok(id)) => {
                                count_event_import_follows(z, s, src);
                                let s = s.count_event_import(src);
                                let ev = Ev::new(false);
                                let ev = Ev { interprocess: true, ..ev };
                                let ev = Ev { ipc_src: Some(src), ..ev };
                                event_follows(z, s, id, ev);
                            },
                        }
                    },
                }
            },
            None => {},
        },
    }
}

/// [`Sim::count_event_import`] continues the history.
pub proof fn count_event_import_follows(z: SimState, s0: SimState, src: EventId)
    requires
        follows(z, s0),
    ensures
        follows(z, s0.count_event_import(src)),
{
    let s = s0;
    match s.events.get(src) {
        Some(ev) => {
            let ev = Ev { ipc_opens: ev.ipc_opens.saturating_add(1), ..ev };
            event_follows(z, s, src, ev);
        },
        _ => {},
    }
}

/// [`Sim::alloc_imported_event`] continues the history.
pub proof fn alloc_imported_event_follows(z: SimState, s0: SimState)
    requires
        follows(z, s0),
    ensures
        follows(z, s0.alloc_imported_event().0),
{
    let s = s0;
    let start = if s.next.imported_event == 0 { 1 } else { s.next.imported_event };
    let found = s.free_event_id(start);
    match found {
        None => {},
        Some(n) => {
            assert(
                follows(
                    z,
                    SimState { next: NextIds { imported_event: (match n.checked_add(1) { Some(x) => x, None => 1 }), ..s.next }, ..s },
                )
            ) by {
                reveal(follows);
            }
        },
    }
}

} // verus!
