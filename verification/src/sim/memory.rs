//! Device, host and managed memory, interprocess handles.
use vstd::prelude::*;
use crate::error::{invalid, SimError};
use crate::ids::{AllocId, DeviceId, EventId, IpcEventHandleId, IpcHandleId, StreamId};
use crate::list::{copy_vec, drop_key, first_where, has_key, lemma_first_at, ok_view, without};
use crate::num::mul_sat;
use crate::ops::{
    HostAllocFlags, MemAdvise, MemAttach, MemRangeAttr, MemRangeAttrValue, Place, RangeAttrView,
};
use crate::profile::align_up;
use crate::sim::{Sim, SimState};
use crate::state::{Alloc, AllocView, Attach, Ev, NextIds, Preferred};
use crate::table::order_of;

verus! {

impl SimState {
    /// Effect of [`Sim::malloc`].
    pub open spec fn malloc(
        self,
        device: DeviceId,
        bytes: u64,
    ) -> (SimState, Result<AllocId, SimError>) {
        let s = self;
        if bytes == 0 {
            (s, Err(invalid("zero-byte alloc")))
        } else {
            match s.fail_if_capturing("cannot capture alloc/free") {
                Err(e) => (s, Err(e)),
                Ok(_v) => match s.profile.gpu(device) {
                    Err(e) => (s, Err(e)),
                    Ok(_gpu) => match s.synchronize_device(device) {
                        (s, Err(e)) => (s, Err(e)),
                        (s, Ok(_v)) => s.reserve_now(device, bytes),
                    },
                },
            }
        }
    }

    /// Effect of [`Sim::malloc_pitch`].
    pub open spec fn malloc_pitch(
        self,
        device: DeviceId,
        width: u64,
        height: u64,
    ) -> (SimState, Result<(AllocId, u64), SimError>) {
        let s = self;
        if width == 0 || height == 0 {
            (s, Err(invalid("malloc pitch")))
        } else {
            let pitch = align_up(width, 512);
            match s.malloc(device, mul_sat(pitch, height)) {
                (s, Err(e)) => (s, Err(e)),
                (s, Ok(id)) => (s, Ok((id, pitch))),
            }
        }
    }

    /// Effect of [`Sim::malloc_3d`].
    pub open spec fn malloc_3d(
        self,
        device: DeviceId,
        width: u64,
        height: u64,
        depth: u64,
    ) -> (SimState, Result<(AllocId, u64), SimError>) {
        let s = self;
        if width == 0 || height == 0 || depth == 0 {
            (s, Err(invalid("malloc 3d")))
        } else {
            let pitch = align_up(width, 512);
            match s.malloc(device, mul_sat(mul_sat(pitch, height), depth)) {
                (s, Err(e)) => (s, Err(e)),
                (s, Ok(id)) => (s, Ok((id, pitch))),
            }
        }
    }

    /// Effect of [`Sim::alloc_host_pinned`].
    pub open spec fn alloc_host_pinned(self, bytes: u64) -> (SimState, Result<AllocId, SimError>) {
        let s = self;
        s.alloc_host_with_flags(bytes, HostAllocFlags::DEFAULT)
    }

    /// Effect of [`Sim::alloc_host`].
    pub open spec fn alloc_host(self, bytes: u64) -> (SimState, Result<AllocId, SimError>) {
        let s = self;
        s.insert_host(bytes, true, false, false, false)
    }

    /// Effect of [`Sim::alloc_host_mapped`].
    pub open spec fn alloc_host_mapped(self, bytes: u64) -> (SimState, Result<AllocId, SimError>) {
        let s = self;
        s.alloc_host_with_flags(bytes, HostAllocFlags::MAPPED)
    }

    /// Effect of [`Sim::alloc_host_with_flags`].
    pub open spec fn alloc_host_with_flags(
        self,
        bytes: u64,
        flags: u32,
    ) -> (SimState, Result<AllocId, SimError>) {
        let s = self;
        if flags & !HostAllocFlags::MAPPED != 0 {
            (s, Err(invalid("host alloc flags")))
        } else {
            let mapped = flags & HostAllocFlags::MAPPED != 0;
            s.insert_host(bytes, false, true, mapped, false)
        }
    }

    /// Effect of [`Sim::alloc_managed`].
    pub open spec fn alloc_managed(self, bytes: u64) -> (SimState, Result<AllocId, SimError>) {
        let s = self;
        if bytes == 0 {
            (s, Err(invalid("zero-byte alloc")))
        } else {
            match s.fail_if_capturing("cannot capture alloc/free") {
                Err(e) => (s, Err(e)),
                Ok(_v) => {
                    let s = s.tick(s.first_alloc_ns());
                    let a = AllocView::blank(bytes);
                    let a = AllocView { live: true, ..a };
                    let a = AllocView { managed: true, ..a };
                    let (s, id) = s.add_alloc(a);
                    (s, Ok(id))
                },
            }
        }
    }

    /// Effect of [`Sim::alloc_managed_host`].
    pub open spec fn alloc_managed_host(self, bytes: u64) -> (SimState, Result<AllocId, SimError>) {
        let s = self;
        match s.alloc_managed(bytes) {
            (s, Err(e)) => (s, Err(e)),
            (s, Ok(id)) => match s.alloc_ref(id) {
                Err(e) => (s, Err(e)),
                Ok(a) => {
                    let s = SimState {
                        allocs: s.allocs.insert(id, AllocView { attach: Attach::Host, ..a }),
                        ..s
                    };
                    (s, Ok(id))
                },
            },
        }
    }

    /// Value of [`Sim::mem_attach`].
    pub open spec fn mem_attach(self, id: AllocId) -> Result<MemAttach, SimError> {
        match self.alloc_ref(id) {
            Err(e) => Err(e),
            Ok(a) => if !a.live {
                Err(invalid("freed"))
            } else if !a.managed {
                Err(invalid("not managed"))
            } else {
                match a.attach {
                    Attach::Global => Ok(MemAttach::Global),
                    Attach::Host => Ok(MemAttach::Host),
                    Attach::Single(_stream) => Ok(MemAttach::Single),
                }
            },
        }
    }

    /// Value of [`Sim::is_attached_to`].
    pub open spec fn is_attached_to(self, id: AllocId, stream: StreamId) -> Result<bool, SimError> {
        match self.alloc_ref(id) {
            Err(e) => Err(e),
            Ok(a) => Ok(a.device_attach_ok(stream)),
        }
    }

    /// Value of [`Sim::is_managed`].
    pub open spec fn is_managed(self, alloc: AllocId) -> Result<bool, SimError> {
        match self.alloc_ref(alloc) {
            Err(e) => Err(e),
            Ok(a) => Ok(a.live && a.managed),
        }
    }

    /// Effect of [`Sim::set_advice`].
    #[verifier::opaque]
    pub open spec fn set_advice(
        self,
        alloc: AllocId,
        advice: MemAdvise,
        device: DeviceId,
    ) -> (SimState, Result<(), SimError>) {
        let s = self;
        match advice {
            MemAdvise::SetReadMostly => match s.alloc_ref(alloc) {
                Err(e) => (s, Err(e)),
                Ok(a) => {
                    let s = SimState {
                        allocs: s.allocs.insert(alloc, AllocView { read_mostly: true, ..a }),
                        ..s
                    };
                    (s, Ok(()))
                },
            },
            MemAdvise::UnsetReadMostly => match s.alloc_ref(alloc) {
                Err(e) => (s, Err(e)),
                Ok(a) => {
                    let s = SimState {
                        allocs: s.allocs.insert(alloc, AllocView { read_mostly: false, ..a }),
                        ..s
                    };
                    (s, Ok(()))
                },
            },
            MemAdvise::SetAccessedBy => match s.profile.gpu(device) {
                Err(e) => (s, Err(e)),
                Ok(_gpu) => match s.alloc_ref(alloc) {
                    Err(e) => (s, Err(e)),
                    Ok(a) => {
                        let a = AllocView { accessed_by: a.accessed_by.insert(device), ..a };
                        let s = SimState { allocs: s.allocs.insert(alloc, a), ..s };
                        (s, Ok(()))
                    },
                },
            },
            MemAdvise::UnsetAccessedBy => match s.profile.gpu(device) {
                Err(e) => (s, Err(e)),
                Ok(_gpu) => match s.alloc_ref(alloc) {
                    Err(e) => (s, Err(e)),
                    Ok(a) => {
                        let a = AllocView { accessed_by: a.accessed_by.remove(device), ..a };
                        let s = SimState { allocs: s.allocs.insert(alloc, a), ..s };
                        (s, Ok(()))
                    },
                },
            },
            MemAdvise::SetPreferredLocation => match s.profile.gpu(device) {
                Err(e) => (s, Err(e)),
                Ok(_gpu) => match s.alloc_ref(alloc) {
                    Err(e) => (s, Err(e)),
                    Ok(a) => {
                        let s = SimState {
                            allocs: s.allocs.insert(
                                alloc,
                                AllocView { preferred: Preferred::Gpu(device), ..a },
                            ),
                            ..s
                        };
                        (s, Ok(()))
                    },
                },
            },
            MemAdvise::SetPreferredLocationHost => match s.alloc_ref(alloc) {
                Err(e) => (s, Err(e)),
                Ok(a) => {
                    let s = SimState {
                        allocs: s.allocs.insert(
                            alloc,
                            AllocView { preferred: Preferred::Host, ..a },
                        ),
                        ..s
                    };
                    (s, Ok(()))
                },
            },
            MemAdvise::UnsetPreferredLocation => match s.alloc_ref(alloc) {
                Err(e) => (s, Err(e)),
                Ok(a) => {
                    let s = SimState {
                        allocs: s.allocs.insert(
                            alloc,
                            AllocView { preferred: Preferred::Nowhere, ..a },
                        ),
                        ..s
                    };
                    (s, Ok(()))
                },
            },
        }
    }

    /// Effect of [`Sim::mem_advise`].
    pub open spec fn mem_advise(
        self,
        alloc: AllocId,
        advice: MemAdvise,
        device: DeviceId,
    ) -> (SimState, Result<(), SimError>) {
        let s = self;
        match s.fail_if_capturing("cannot capture mem advise") {
            Err(e) => (s, Err(e)),
            Ok(_v) => match s.alloc_ref(alloc) {
                Err(e) => (s, Err(e)),
                Ok(a) => if !a.live || !a.managed {
                    (s, Err(invalid("not managed")))
                } else {
                    match s.set_advice(alloc, advice, device) {
                        (s, Err(e)) => (s, Err(e)),
                        (s, Ok(_v)) => {
                            let s = s.tick(s.first_alloc_ns());
                            (s, Ok(()))
                        },
                    }
                },
            },
        }
    }

    /// Value of [`Sim::mem_range_get_attribute`].
    pub open spec fn mem_range_get_attribute(
        self,
        alloc: AllocId,
        attr: MemRangeAttr,
    ) -> Result<RangeAttrView, SimError> {
        match self.alloc_ref(alloc) {
            Err(e) => Err(e),
            Ok(a) => if !a.live || !a.managed {
                Err(invalid("not managed"))
            } else {
                match attr {
                    MemRangeAttr::ReadMostly => Ok(RangeAttrView::ReadMostly(a.read_mostly)),
                    MemRangeAttr::PreferredLocation => {
                        let at = (match a.preferred {
                            Preferred::Nowhere => None,
                            Preferred::Host => Some(Place::Host),
                            Preferred::Gpu(d) => Some(Place::Device(d)),
                        });
                        Ok(RangeAttrView::PreferredLocation(at))
                    },
                    MemRangeAttr::AccessedBy => Ok(
                        RangeAttrView::AccessedBy(order_of(a.accessed_by)),
                    ),
                }
            },
        }
    }

    /// Value of [`Sim::is_read_mostly`].
    pub open spec fn is_read_mostly(self, alloc: AllocId) -> Result<bool, SimError> {
        match self.alloc_ref(alloc) {
            Err(e) => Err(e),
            Ok(a) => Ok(a.live && a.managed && a.read_mostly),
        }
    }

    /// Value of [`Sim::is_accessed_by`].
    pub open spec fn is_accessed_by(
        self,
        alloc: AllocId,
        device: DeviceId,
    ) -> Result<bool, SimError> {
        match self.alloc_ref(alloc) {
            Err(e) => Err(e),
            Ok(a) => if !a.live {
                Ok(false)
            } else if a.accessed_by.contains(device) && (a.managed || a.vmm) {
                Ok(true)
            } else {
                Ok(self.pool_peer_ok(a, device))
            },
        }
    }

    /// Value of [`Sim::is_preferred_location`].
    pub open spec fn is_preferred_location(
        self,
        alloc: AllocId,
        device: DeviceId,
    ) -> Result<bool, SimError> {
        match self.alloc_ref(alloc) {
            Err(e) => Err(e),
            Ok(a) => Ok(a.live && a.managed && a.preferred == Preferred::Gpu(device)),
        }
    }

    /// Value of [`Sim::is_preferred_host`].
    pub open spec fn is_preferred_host(self, alloc: AllocId) -> Result<bool, SimError> {
        match self.alloc_ref(alloc) {
            Err(e) => Err(e),
            Ok(a) => Ok(a.live && a.managed && a.preferred == Preferred::Host),
        }
    }

    /// Effect of [`Sim::drop_managed_copy`].
    pub open spec fn drop_managed_copy(
        self,
        alloc: AllocId,
        device: DeviceId,
    ) -> (SimState, Result<(), SimError>) {
        let s = self;
        match s.fail_if_capturing("cannot capture alloc/free") {
            Err(e) => (s, Err(e)),
            Ok(_v) => match s.profile.gpu(device) {
                Err(e) => (s, Err(e)),
                Ok(_gpu) => match s.alloc_ref(alloc) {
                    Err(e) => (s, Err(e)),
                    Ok(a) => if !a.live || !a.managed {
                        (s, Err(invalid("not managed")))
                    } else if !a.read_mostly {
                        (s, Err(invalid("not read-mostly")))
                    } else if a.leases > 0 {
                        (s, Err(SimError::Leased { alloc }))
                    } else if !a.devices.contains(device) {
                        (s, Err(SimError::NotResident { alloc, device }))
                    } else if a.devices.len() < 2 {
                        (s, Err(invalid("last managed copy")))
                    } else {
                        let bytes = a.bytes;
                        match s.refund_device(device, alloc, bytes) {
                            (s, Err(e)) => (s, Err(e)),
                            (s, Ok(_v)) => match s.alloc_ref(alloc) {
                                Err(e) => (s, Err(e)),
                                Ok(b) => {
                                    let b = AllocView { devices: without(b.devices, device), ..b };
                                    let s = SimState { allocs: s.allocs.insert(alloc, b), ..s };
                                    let s = s.tick(1);
                                    (s, Ok(()))
                                },
                            },
                        }
                    },
                },
            },
        }
    }

    /// Value of [`Sim::is_host_pinned`].
    pub open spec fn is_host_pinned(self, alloc: AllocId) -> Result<bool, SimError> {
        match self.alloc_ref(alloc) {
            Err(e) => Err(e),
            Ok(a) => Ok(a.live && a.host_pinned),
        }
    }

    /// Value of [`Sim::is_host_pageable`].
    pub open spec fn is_host_pageable(self, alloc: AllocId) -> Result<bool, SimError> {
        match self.alloc_ref(alloc) {
            Err(e) => Err(e),
            Ok(a) => Ok(a.live && a.host_pageable),
        }
    }

    /// Value of [`Sim::is_host_mapped`].
    pub open spec fn is_host_mapped(self, alloc: AllocId) -> Result<bool, SimError> {
        match self.alloc_ref(alloc) {
            Err(e) => Err(e),
            Ok(a) => Ok(a.live && a.host_mapped),
        }
    }

    /// Effect of [`Sim::host_register`].
    pub open spec fn host_register(self, id: AllocId) -> (SimState, Result<(), SimError>) {
        let s = self;
        s.host_register_with_flags(id, HostAllocFlags::DEFAULT)
    }

    /// Effect of [`Sim::host_register_mapped`].
    pub open spec fn host_register_mapped(self, id: AllocId) -> (SimState, Result<(), SimError>) {
        let s = self;
        s.host_register_with_flags(id, HostAllocFlags::MAPPED)
    }

    /// Effect of [`Sim::host_register_with_flags`].
    pub open spec fn host_register_with_flags(
        self,
        id: AllocId,
        flags: u32,
    ) -> (SimState, Result<(), SimError>) {
        let s = self;
        if flags & !HostAllocFlags::MAPPED != 0 {
            (s, Err(invalid("host register flags")))
        } else {
            s.host_register_flags(id, flags & HostAllocFlags::MAPPED != 0)
        }
    }

    /// Effect of [`Sim::host_register_flags`].
    #[verifier::opaque]
    pub open spec fn host_register_flags(
        self,
        id: AllocId,
        mapped: bool,
    ) -> (SimState, Result<(), SimError>) {
        let s = self;
        match s.fail_if_capturing("cannot capture host register") {
            Err(e) => (s, Err(e)),
            Ok(_v) => match s.alloc_ref(id) {
                Err(e) => (s, Err(e)),
                Ok(a) => if a.leases > 0 {
                    (s, Err(SimError::Leased { alloc: id }))
                } else if !a.live || !a.host_pageable || a.host_pinned {
                    (s, Err(invalid("not pageable host")))
                } else {
                    let bytes = a.bytes;
                    match s.charge_pin(bytes) {
                        (s, Err(e)) => (s, Err(e)),
                        (s, Ok(_v)) => {
                            let s = s.tick(s.first_alloc_ns());
                            match s.alloc_ref(id) {
                                Err(e) => (s, Err(e)),
                                Ok(b) => {
                                    let b = AllocView {
                                        host_pageable: false,
                                        host_pinned: true,
                                        host_mapped: mapped,
                                        host_registered: true,
                                        ..b
                                    };
                                    let s = SimState { allocs: s.allocs.insert(id, b), ..s };
                                    (s, Ok(()))
                                },
                            }
                        },
                    }
                },
            },
        }
    }

    /// Effect of [`Sim::host_unregister`].
    pub open spec fn host_unregister(self, id: AllocId) -> (SimState, Result<(), SimError>) {
        let s = self;
        match s.fail_if_capturing("cannot capture host register") {
            Err(e) => (s, Err(e)),
            Ok(_v) => match s.synchronize() {
                (s, Err(e)) => (s, Err(e)),
                (s, Ok(_v)) => match s.alloc_ref(id) {
                    Err(e) => (s, Err(e)),
                    Ok(a) => if a.leases > 0 {
                        (s, Err(SimError::Leased { alloc: id }))
                    } else if !a.live || !a.host_registered {
                        (s, Err(invalid("not registered")))
                    } else if a.devices.len() > 0 {
                        (s, Err(invalid("host-registered still resident on a device")))
                    } else {
                        let bytes = a.bytes;
                        let s = s.refund_pin(bytes);
                        match s.alloc_ref(id) {
                            Err(e) => (s, Err(e)),
                            Ok(b) => {
                                let b = AllocView {
                                    host_pinned: false,
                                    host_mapped: false,
                                    host_registered: false,
                                    host_pageable: true,
                                    ..b
                                };
                                let s = SimState { allocs: s.allocs.insert(id, b), ..s };
                                (s, Ok(()))
                            },
                        }
                    },
                },
            },
        }
    }

    /// Effect of [`Sim::free_host`].
    pub open spec fn free_host(self, id: AllocId) -> (SimState, Result<(), SimError>) {
        let s = self;
        match s.fail_if_capturing("cannot capture alloc/free") {
            Err(e) => (s, Err(e)),
            Ok(_v) => match s.synchronize() {
                (s, Err(e)) => (s, Err(e)),
                (s, Ok(_v)) => match s.alloc_ref(id) {
                    Err(e) => (s, Err(e)),
                    Ok(a) => if a.leases > 0 {
                        (s, Err(SimError::Leased { alloc: id }))
                    } else if !a.live || !a.host_pageable || a.host_pinned {
                        (s, Err(SimError::UnknownAlloc { alloc: id }))
                    } else if a.devices.len() > 0 {
                        (s, Err(invalid("host still resident on a device")))
                    } else {
                        match s.alloc_ref(id) {
                            Err(e) => (s, Err(e)),
                            Ok(b) => {
                                let b = AllocView { live: false, host_pageable: false, ..b };
                                let s = SimState { allocs: s.allocs.insert(id, b), ..s };
                                let s = s.clear_mailbox(id);
                                (s, Ok(()))
                            },
                        }
                    },
                },
            },
        }
    }

    /// Effect of [`Sim::free_host_pinned`].
    pub open spec fn free_host_pinned(self, id: AllocId) -> (SimState, Result<(), SimError>) {
        let s = self;
        match s.fail_if_capturing("cannot capture alloc/free") {
            Err(e) => (s, Err(e)),
            Ok(_v) => match s.synchronize() {
                (s, Err(e)) => (s, Err(e)),
                (s, Ok(_v)) => match s.alloc_ref(id) {
                    Err(e) => (s, Err(e)),
                    Ok(a) => if a.leases > 0 {
                        (s, Err(SimError::Leased { alloc: id }))
                    } else if !a.live || !a.host_pinned || a.host_registered {
                        (s, Err(SimError::UnknownAlloc { alloc: id }))
                    } else if a.devices.len() > 0 {
                        (s, Err(invalid("host-pinned still resident on a device")))
                    } else {
                        let bytes = a.bytes;
                        let s = s.refund_pin(bytes);
                        match s.alloc_ref(id) {
                            Err(e) => (s, Err(e)),
                            Ok(b) => {
                                let b = AllocView {
                                    live: false,
                                    host_pinned: false,
                                    host_mapped: false,
                                    host_pageable: false,
                                    ..b
                                };
                                let s = SimState { allocs: s.allocs.insert(id, b), ..s };
                                let s = s.clear_mailbox(id);
                                (s, Ok(()))
                            },
                        }
                    },
                },
            },
        }
    }

    /// Effect of [`Sim::synchronize_holders`].
    pub open spec fn synchronize_holders(
        self,
        holders: Seq<DeviceId>,
    ) -> (SimState, Result<(), SimError>) {
        let s = self;
        if holders.len() == 0 {
            s.synchronize()
        } else {
            s.synchronize_holders_from(holders, 0)
        }
    }

    /// [`Sim::synchronize_holders`] from position `i` on.
    pub open spec fn synchronize_holders_from(
        self,
        holders: Seq<DeviceId>,
        i: int,
    ) -> (SimState, Result<(), SimError>)
        decreases holders.len() - i,
    {
        let s = self;
        if 0 <= i < holders.len() {
            match s.synchronize_device(holders[i]) {
                (s, Err(e)) => (s, Err(e)),
                (s, Ok(_v)) => s.synchronize_holders_from(holders, i + 1),
            }
        } else {
            (s, Ok(()))
        }
    }

    /// Effect of [`Sim::free_sync`].
    pub open spec fn free_sync(self, id: AllocId) -> (SimState, Result<(), SimError>) {
        let s = self;
        match s.fail_if_capturing("cannot capture alloc/free") {
            Err(e) => (s, Err(e)),
            Ok(_v) => match s.alloc_ref(id) {
                Err(e) => (s, Err(e)),
                Ok(a) => if a.host_pinned || a.host_pageable || a.vmm {
                    (s, Err(SimError::UnknownAlloc { alloc: id }))
                } else {
                    let holders = a.devices;
                    match s.synchronize_holders(holders) {
                        (s, Err(e)) => (s, Err(e)),
                        (s, Ok(_v)) => s.free_now(id),
                    }
                },
            },
        }
    }

    /// Effect of [`Sim::free_now`].
    #[verifier::opaque]
    pub open spec fn free_now(self, id: AllocId) -> (SimState, Result<(), SimError>) {
        let s = self;
        match s.alloc_ref(id) {
            Err(e) => (s, Err(e)),
            Ok(a) => if a.leases > 0 {
                (s, Err(SimError::Leased { alloc: id }))
            } else if a.ipc_src.is_some() {
                s.drop_ipc_import(id)
            } else if a.share_src.is_some() {
                s.drop_share_import(id)
            } else if a.ipc_opens > 0 {
                (s, Err(invalid("ipc mapped")))
            } else if a.share_opens > 0 {
                (s, Err(invalid("share mapped")))
            } else if !a.live || a.host_pinned {
                (s, Err(SimError::UnknownAlloc { alloc: id }))
            } else {
                let devices = a.devices;
                let bytes = a.bytes;
                match s.refund_devices(devices, id, bytes) {
                    (s, Err(e)) => (s, Err(e)),
                    (s, Ok(_v)) => match s.alloc_ref(id) {
                        Err(e) => (s, Err(e)),
                        Ok(b) => {
                            let b = AllocView { devices: Seq::empty(), live: false, ..b };
                            let s = SimState { allocs: s.allocs.insert(id, b), ..s };
                            let s = s.clear_mailbox(id);
                            (s, Ok(()))
                        },
                    },
                }
            },
        }
    }

    /// Whether [`Sim::ipc_handle_of`] finds something at position `i`.
    pub open spec fn ipc_handle_of_at(self, id: AllocId, i: int) -> bool {
        self.ipc_handles[order_of(self.ipc_handles.dom())[i]] == id
    }

    /// Value of [`Sim::ipc_handle_of`].
    pub open spec fn ipc_handle_of(self, id: AllocId) -> Option<IpcHandleId> {
        match first_where(
            order_of(self.ipc_handles.dom()).len(),
            |i: int| self.ipc_handle_of_at(id, i),
        ) {
            Some(i) => Some(order_of(self.ipc_handles.dom())[i]),
            None => None,
        }
    }

    /// Value of [`Sim::device_ipc_ok`].
    pub open spec fn device_ipc_ok(self, id: AllocId) -> Result<(), SimError> {
        match self.alloc_ref(id) {
            Err(e) => Err(e),
            Ok(a) => if !a.live || a.managed || a.vmm || a.host_pinned || a.host_pageable {
                Err(invalid("not device ipc"))
            } else if a.ipc_src.is_some() || a.share_src.is_some() || a.pool.is_some() || a.devices.len() == 0 {
                Err(invalid("not device ipc"))
            } else {
                Ok(())
            },
        }
    }

    /// Effect of [`Sim::ipc_get`].
    pub open spec fn ipc_get(self, id: AllocId) -> (SimState, Result<IpcHandleId, SimError>) {
        let s = self;
        match s.fail_if_capturing("cannot capture ipc") {
            Err(e) => (s, Err(e)),
            Ok(_v) => match s.device_ipc_ok(id) {
                Err(e) => (s, Err(e)),
                Ok(_v) => match s.holder_of(id, "not device ipc") {
                    Err(e) => (s, Err(e)),
                    Ok(device) => match s.ipc_handle_of(id) {
                        Some(h) => (s, Ok(h)),
                        _ => match s.pay_alloc(device) {
                            (s, Err(e)) => (s, Err(e)),
                            (s, Ok(_v)) => {
                                let h = IpcHandleId(s.next.ipc);
                                let s = SimState {
                                    next: NextIds { ipc: s.next.ipc.saturating_add(1), ..s.next },
                                    ..s
                                };
                                let s = SimState { ipc_handles: s.ipc_handles.insert(h, id), ..s };
                                (s, Ok(h))
                            },
                        },
                    },
                },
            },
        }
    }

    /// Effect of [`Sim::ipc_open`].
    pub open spec fn ipc_open(
        self,
        device: DeviceId,
        handle: IpcHandleId,
    ) -> (SimState, Result<AllocId, SimError>) {
        let s = self;
        match s.fail_if_capturing("cannot capture ipc") {
            Err(e) => (s, Err(e)),
            Ok(_v) => match s.ipc_handles.get(handle) {
                Some(x) => {
                    let src = x;
                    match s.alloc_ref(src) {
                        Err(e) => (s, Err(e)),
                        Ok(a) => if !a.live {
                            (s, Err(invalid("freed")))
                        } else if !a.devices.contains(device) {
                            (s, Err(invalid("ipc device mismatch")))
                        } else {
                            let opens = a.ipc_opens;
                            let alias = AllocView::blank(a.bytes);
                            let alias = AllocView { devices: a.devices, ..alias };
                            let alias = AllocView { live: true, ..alias };
                            let alias = AllocView { ipc_src: Some(src), ..alias };
                            match s.pay_alloc(device) {
                                (s, Err(e)) => (s, Err(e)),
                                (s, Ok(_v)) => match s.alloc_ref(src) {
                                    Err(e) => (s, Err(e)),
                                    Ok(a) => {
                                        let s = SimState {
                                            allocs: s.allocs.insert(
                                                src,
                                                AllocView {
                                                    ipc_opens: opens.saturating_add(1),
                                                    ..a
                                                },
                                            ),
                                            ..s
                                        };
                                        let (s, id) = s.add_alloc(alias);
                                        (s, Ok(id))
                                    },
                                },
                            }
                        },
                    }
                },
                None => (s, Err(invalid("unknown ipc"))),
            },
        }
    }

    /// Effect of [`Sim::ipc_close`].
    pub open spec fn ipc_close(self, id: AllocId) -> (SimState, Result<(), SimError>) {
        let s = self;
        match s.fail_if_capturing("cannot capture ipc") {
            Err(e) => (s, Err(e)),
            Ok(_v) => s.drop_ipc_import(id),
        }
    }

    /// Value of [`Sim::is_ipc_import`].
    pub open spec fn is_ipc_import(self, id: AllocId) -> Result<bool, SimError> {
        match self.alloc_ref(id) {
            Err(e) => Err(e),
            Ok(a) => Ok(a.live && a.ipc_src.is_some()),
        }
    }

    /// Whether [`Sim::ipc_event_handle_of`] finds something at position `i`.
    pub open spec fn ipc_event_handle_of_at(self, event: EventId, i: int) -> bool {
        self.ipc_event_handles[order_of(self.ipc_event_handles.dom())[i]] == event
    }

    /// Value of [`Sim::ipc_event_handle_of`].
    pub open spec fn ipc_event_handle_of(self, event: EventId) -> Option<IpcEventHandleId> {
        match first_where(
            order_of(self.ipc_event_handles.dom()).len(),
            |i: int| self.ipc_event_handle_of_at(event, i),
        ) {
            Some(i) => Some(order_of(self.ipc_event_handles.dom())[i]),
            None => None,
        }
    }

    /// Value of [`Sim::event_ipc_ok`].
    pub open spec fn event_ipc_ok(self, event: EventId) -> Result<(), SimError> {
        match self.event_ref(event) {
            Err(e) => Err(e),
            Ok(ev) => if ev.ipc_src.is_some() {
                Err(invalid("ipc event import"))
            } else if !ev.interprocess {
                Err(invalid("not interprocess"))
            } else {
                Ok(())
            },
        }
    }

    /// Effect of [`Sim::ipc_get_event`].
    pub open spec fn ipc_get_event(
        self,
        event: EventId,
    ) -> (SimState, Result<IpcEventHandleId, SimError>) {
        let s = self;
        match s.fail_if_capturing("cannot capture ipc") {
            Err(e) => (s, Err(e)),
            Ok(_v) => match s.event_ipc_ok(event) {
                Err(e) => (s, Err(e)),
                Ok(_v) => match s.ipc_event_handle_of(event) {
                    Some(h) => (s, Ok(h)),
                    _ => {
                        let s = s.tick(1);
                        let h = IpcEventHandleId(s.next.ipc_event);
                        let s = SimState {
                            next: NextIds {
                                ipc_event: s.next.ipc_event.saturating_add(1),
                                ..s.next
                            },
                            ..s
                        };
                        let s = SimState {
                            ipc_event_handles: s.ipc_event_handles.insert(h, event),
                            ..s
                        };
                        (s, Ok(h))
                    },
                },
            },
        }
    }

    /// Effect of [`Sim::ipc_open_event`].
    pub open spec fn ipc_open_event(
        self,
        handle: IpcEventHandleId,
    ) -> (SimState, Result<EventId, SimError>) {
        let s = self;
        match s.fail_if_capturing("cannot capture ipc") {
            Err(e) => (s, Err(e)),
            Ok(_v) => match s.ipc_event_handles.get(handle) {
                Some(x) => {
                    let src = x;
                    match s.event_ipc_ok(src) {
                        Err(e) => (s, Err(e)),
                        Ok(_v) => {
                            let s = s.tick(1);
                            match s.alloc_imported_event() {
                                (s, Err(e)) => (s, Err(e)),
                                (s, Ok(id)) => {
                                    let s = s.count_event_import(src);
                                    let ev = Ev::new(false);
                                    let ev = Ev { interprocess: true, ..ev };
                                    let ev = Ev { ipc_src: Some(src), ..ev };
                                    let s = SimState { events: s.events.insert(id, ev), ..s };
                                    (s, Ok(id))
                                },
                            }
                        },
                    }
                },
                None => (s, Err(invalid("unknown ipc event"))),
            },
        }
    }

    /// Effect of [`Sim::count_event_import`].
    pub open spec fn count_event_import(self, src: EventId) -> SimState {
        let s = self;
        match s.events.get(src) {
            Some(ev) => {
                let ev = Ev { ipc_opens: ev.ipc_opens.saturating_add(1), ..ev };
                let s = SimState { events: s.events.insert(src, ev), ..s };
                s
            },
            _ => s,
        }
    }

    /// Value of [`Sim::is_ipc_event_import`].
    pub open spec fn is_ipc_event_import(self, event: EventId) -> Result<bool, SimError> {
        match self.event_ref(event) {
            Err(e) => Err(e),
            Ok(ev) => Ok(ev.ipc_src.is_some()),
        }
    }

    /// Effect of [`Sim::alloc_imported_event`].
    pub open spec fn alloc_imported_event(self) -> (SimState, Result<EventId, SimError>) {
        let s = self;
        let start = if s.next.imported_event == 0 {
            1
        } else {
            s.next.imported_event
        };
        let found = s.free_event_id(start);
        match found {
            None => (s, Err(invalid("event id space"))),
            Some(n) => {
                let s = SimState { next: NextIds { imported_event: (match n.checked_add(1) { Some(x) => x, None => 1 }), ..s.next }, ..s };
                (s, Ok(EventId(n)))
            },
        }
    }
}

impl Sim {
    /// Allocate device memory now, after waiting for the device.
    pub fn malloc(&mut self, device: DeviceId, bytes: u64) -> (r: Result<AllocId, SimError>)
        ensures
            final(self)@ == old(self)@.malloc(device, bytes).0,
            r == old(self)@.malloc(device, bytes).1,
    {
        if bytes == 0 {
            return Err(invalid("zero-byte alloc"));
        }
        self.fail_if_capturing("cannot capture alloc/free")?;
        let _gpu = self.profile.gpu(device)?;
        self.synchronize_device(device)?;
        self.reserve_now(device, bytes)
    }

    /// Allocate rows of `width` bytes at an aligned pitch; gives the pitch too.
    pub fn malloc_pitch(
        &mut self,
        device: DeviceId,
        width: u64,
        height: u64,
    ) -> (r: Result<(AllocId, u64), SimError>)
        ensures
            final(self)@ == old(self)@.malloc_pitch(device, width, height).0,
            r == old(self)@.malloc_pitch(device, width, height).1,
    {
        if width == 0 || height == 0 {
            return Err(invalid("malloc pitch"));
        }
        let pitch: u64 = align_up(width, 512);
        let id = self.malloc(device, mul_sat(pitch, height))?;
        Ok((id, pitch))
    }

    /// Allocate slices of rows at an aligned pitch; gives the pitch too.
    pub fn malloc_3d(
        &mut self,
        device: DeviceId,
        width: u64,
        height: u64,
        depth: u64,
    ) -> (r: Result<(AllocId, u64), SimError>)
        ensures
            final(self)@ == old(self)@.malloc_3d(device, width, height, depth).0,
            r == old(self)@.malloc_3d(device, width, height, depth).1,
    {
        if width == 0 || height == 0 || depth == 0 {
            return Err(invalid("malloc 3d"));
        }
        let pitch: u64 = align_up(width, 512);
        let id = self.malloc(device, mul_sat(mul_sat(pitch, height), depth))?;
        Ok((id, pitch))
    }

    /// Allocate page-locked host memory.
    pub fn alloc_host_pinned(&mut self, bytes: u64) -> (r: Result<AllocId, SimError>)
        ensures
            final(self)@ == old(self)@.alloc_host_pinned(bytes).0,
            r == old(self)@.alloc_host_pinned(bytes).1,
    {
        self.alloc_host_with_flags(bytes, HostAllocFlags::DEFAULT)
    }

    /// Allocate pageable host memory.
    pub fn alloc_host(&mut self, bytes: u64) -> (r: Result<AllocId, SimError>)
        ensures
            final(self)@ == old(self)@.alloc_host(bytes).0,
            r == old(self)@.alloc_host(bytes).1,
    {
        self.insert_host(bytes, true, false, false, false)
    }

    /// Allocate page-locked host memory that kernels can read.
    pub fn alloc_host_mapped(&mut self, bytes: u64) -> (r: Result<AllocId, SimError>)
        ensures
            final(self)@ == old(self)@.alloc_host_mapped(bytes).0,
            r == old(self)@.alloc_host_mapped(bytes).1,
    {
        self.alloc_host_with_flags(bytes, HostAllocFlags::MAPPED)
    }

    /// Allocate page-locked host memory with the bits of [`HostAllocFlags`].
    pub fn alloc_host_with_flags(
        &mut self,
        bytes: u64,
        flags: u32,
    ) -> (r: Result<AllocId, SimError>)
        ensures
            final(self)@ == old(self)@.alloc_host_with_flags(bytes, flags).0,
            r == old(self)@.alloc_host_with_flags(bytes, flags).1,
    {
        if flags & !HostAllocFlags::MAPPED != 0 {
            return Err(invalid("host alloc flags"));
        }
        let mapped: bool = flags & HostAllocFlags::MAPPED != 0;
        self.insert_host(bytes, false, true, mapped, false)
    }

    /// Allocate managed memory. It takes device memory when it is first used there.
    pub fn alloc_managed(&mut self, bytes: u64) -> (r: Result<AllocId, SimError>)
        ensures
            final(self)@ == old(self)@.alloc_managed(bytes).0,
            r == old(self)@.alloc_managed(bytes).1,
    {
        if bytes == 0 {
            return Err(invalid("zero-byte alloc"));
        }
        self.fail_if_capturing("cannot capture alloc/free")?;
        self.tick(self.first_alloc_ns());
        let mut a: Alloc = Alloc::blank(bytes);
        a.live = true;
        a.managed = true;
        let id = self.add_alloc(a);
        Ok(id)
    }

    /// Allocate managed memory that only the host sees at first.
    pub fn alloc_managed_host(&mut self, bytes: u64) -> (r: Result<AllocId, SimError>)
        ensures
            final(self)@ == old(self)@.alloc_managed_host(bytes).0,
            r == old(self)@.alloc_managed_host(bytes).1,
    {
        let id = self.alloc_managed(bytes)?;
        self.alloc_mut(id)?.attach = Attach::Host;
        Ok(id)
    }

    /// Which streams see managed memory.
    pub fn mem_attach(&self, id: AllocId) -> (r: Result<MemAttach, SimError>)
        ensures
            r == self@.mem_attach(id),
    {
        let a = self.alloc_ref(id)?;
        if !a.live {
            return Err(invalid("freed"));
        }
        if !a.managed {
            return Err(invalid("not managed"));
        }
        match a.attach {
            Attach::Global => Ok(MemAttach::Global),
            Attach::Host => Ok(MemAttach::Host),
            Attach::Single(_stream) => Ok(MemAttach::Single),
        }
    }

    /// Whether kernels of a stream see the memory.
    pub fn is_attached_to(&self, id: AllocId, stream: StreamId) -> (r: Result<bool, SimError>)
        ensures
            r == self@.is_attached_to(id, stream),
    {
        let a = self.alloc_ref(id)?;
        Ok(a.device_attach_ok(stream))
    }

    /// Whether the allocation is live managed memory.
    pub fn is_managed(&self, alloc: AllocId) -> (r: Result<bool, SimError>)
        ensures
            r == self@.is_managed(alloc),
    {
        let a = self.alloc_ref(alloc)?;
        Ok(a.live && a.managed)
    }

    /// Record a hint on managed memory.
    pub(crate) fn set_advice(
        &mut self,
        alloc: AllocId,
        advice: MemAdvise,
        device: DeviceId,
    ) -> (r: Result<(), SimError>)
        ensures
            final(self)@ == old(self)@.set_advice(alloc, advice, device).0,
            r == old(self)@.set_advice(alloc, advice, device).1,
    {
        reveal(SimState::set_advice);
        match advice {
            MemAdvise::SetReadMostly => {
                self.alloc_mut(alloc)?.read_mostly = true;
                Ok(())
            },
            MemAdvise::UnsetReadMostly => {
                self.alloc_mut(alloc)?.read_mostly = false;
                Ok(())
            },
            MemAdvise::SetAccessedBy => {
                let _gpu = self.profile.gpu(device)?;
                let a = self.alloc_mut(alloc)?;
                let _new = a.accessed_by.insert(device);
                Ok(())
            },
            MemAdvise::UnsetAccessedBy => {
                let _gpu = self.profile.gpu(device)?;
                let a = self.alloc_mut(alloc)?;
                let _was = a.accessed_by.remove(device);
                Ok(())
            },
            MemAdvise::SetPreferredLocation => {
                let _gpu = self.profile.gpu(device)?;
                self.alloc_mut(alloc)?.preferred = Preferred::Gpu(device);
                Ok(())
            },
            MemAdvise::SetPreferredLocationHost => {
                self.alloc_mut(alloc)?.preferred = Preferred::Host;
                Ok(())
            },
            MemAdvise::UnsetPreferredLocation => {
                self.alloc_mut(alloc)?.preferred = Preferred::Nowhere;
                Ok(())
            },
        }
    }

    /// Give a hint on managed memory.
    pub fn mem_advise(
        &mut self,
        alloc: AllocId,
        advice: MemAdvise,
        device: DeviceId,
    ) -> (r: Result<(), SimError>)
        ensures
            final(self)@ == old(self)@.mem_advise(alloc, advice, device).0,
            r == old(self)@.mem_advise(alloc, advice, device).1,
    {
        self.fail_if_capturing("cannot capture mem advise")?;
        let a = self.alloc_ref(alloc)?;
        if !a.live || !a.managed {
            return Err(invalid("not managed"));
        }
        self.set_advice(alloc, advice, device)?;
        self.tick(self.first_alloc_ns());
        Ok(())
    }

    /// A hint on managed memory, by name.
    pub fn mem_range_get_attribute(
        &self,
        alloc: AllocId,
        attr: MemRangeAttr,
    ) -> (r: Result<MemRangeAttrValue, SimError>)
        ensures
            ok_view(r) == self@.mem_range_get_attribute(alloc, attr),
    {
        let a = self.alloc_ref(alloc)?;
        if !a.live || !a.managed {
            return Err(invalid("not managed"));
        }
        match attr {
            MemRangeAttr::ReadMostly => Ok(MemRangeAttrValue::ReadMostly(a.read_mostly)),
            MemRangeAttr::PreferredLocation => {
                let at: Option<Place> = match a.preferred {
                    Preferred::Nowhere => None,
                    Preferred::Host => Some(Place::Host),
                    Preferred::Gpu(d) => Some(Place::Device(d)),
                };
                Ok(MemRangeAttrValue::PreferredLocation(at))
            },
            MemRangeAttr::AccessedBy => Ok(MemRangeAttrValue::AccessedBy(a.accessed_by.to_list())),
        }
    }

    /// Whether live managed memory is replicated instead of moved.
    pub fn is_read_mostly(&self, alloc: AllocId) -> (r: Result<bool, SimError>)
        ensures
            r == self@.is_read_mostly(alloc),
    {
        let a = self.alloc_ref(alloc)?;
        Ok(a.live && a.managed && a.read_mostly)
    }

    /// Whether a device may use the memory without a copy of its own.
    pub fn is_accessed_by(&self, alloc: AllocId, device: DeviceId) -> (r: Result<bool, SimError>)
        ensures
            r == self@.is_accessed_by(alloc, device),
    {
        let a = self.alloc_ref(alloc)?;
        if !a.live {
            return Ok(false);
        }
        if a.accessed_by.contains(device) && (a.managed || a.vmm) {
            return Ok(true);
        }
        Ok(self.pool_peer_ok(a, device))
    }

    /// Whether live managed memory prefers the device.
    pub fn is_preferred_location(
        &self,
        alloc: AllocId,
        device: DeviceId,
    ) -> (r: Result<bool, SimError>)
        ensures
            r == self@.is_preferred_location(alloc, device),
    {
        let a = self.alloc_ref(alloc)?;
        Ok(a.live && a.managed && a.preferred == Preferred::Gpu(device))
    }

    /// Whether live managed memory prefers the host.
    pub fn is_preferred_host(&self, alloc: AllocId) -> (r: Result<bool, SimError>)
        ensures
            r == self@.is_preferred_host(alloc),
    {
        let a = self.alloc_ref(alloc)?;
        Ok(a.live && a.managed && a.preferred == Preferred::Host)
    }

    /// Drop the copy of one device of replicated memory; the last copy stays.
    pub fn drop_managed_copy(
        &mut self,
        alloc: AllocId,
        device: DeviceId,
    ) -> (r: Result<(), SimError>)
        ensures
            final(self)@ == old(self)@.drop_managed_copy(alloc, device).0,
            r == old(self)@.drop_managed_copy(alloc, device).1,
    {
        self.fail_if_capturing("cannot capture alloc/free")?;
        let _gpu = self.profile.gpu(device)?;
        let a = self.alloc_ref(alloc)?;
        if !a.live || !a.managed {
            return Err(invalid("not managed"));
        }
        if !a.read_mostly {
            return Err(invalid("not read-mostly"));
        }
        if a.leases > 0 {
            return Err(SimError::Leased { alloc });
        }
        if !has_key(&a.devices, device) {
            return Err(SimError::NotResident { alloc, device });
        }
        if a.devices.len() < 2 {
            return Err(invalid("last managed copy"));
        }
        let bytes: u64 = a.bytes;
        self.refund_device(device, alloc, bytes)?;
        let b = self.alloc_mut(alloc)?;
        drop_key(&mut b.devices, device);
        self.tick(1);
        Ok(())
    }

    /// Whether the allocation is live page-locked host memory.
    pub fn is_host_pinned(&self, alloc: AllocId) -> (r: Result<bool, SimError>)
        ensures
            r == self@.is_host_pinned(alloc),
    {
        let a = self.alloc_ref(alloc)?;
        Ok(a.live && a.host_pinned)
    }

    /// Whether the allocation is live pageable host memory.
    pub fn is_host_pageable(&self, alloc: AllocId) -> (r: Result<bool, SimError>)
        ensures
            r == self@.is_host_pageable(alloc),
    {
        let a = self.alloc_ref(alloc)?;
        Ok(a.live && a.host_pageable)
    }

    /// Whether the allocation is live host memory that kernels can read.
    pub fn is_host_mapped(&self, alloc: AllocId) -> (r: Result<bool, SimError>)
        ensures
            r == self@.is_host_mapped(alloc),
    {
        let a = self.alloc_ref(alloc)?;
        Ok(a.live && a.host_mapped)
    }

    /// Page-lock pageable host memory.
    pub fn host_register(&mut self, id: AllocId) -> (r: Result<(), SimError>)
        ensures
            final(self)@ == old(self)@.host_register(id).0,
            r == old(self)@.host_register(id).1,
    {
        self.host_register_with_flags(id, HostAllocFlags::DEFAULT)
    }

    /// Page-lock pageable host memory and let kernels read it.
    pub fn host_register_mapped(&mut self, id: AllocId) -> (r: Result<(), SimError>)
        ensures
            final(self)@ == old(self)@.host_register_mapped(id).0,
            r == old(self)@.host_register_mapped(id).1,
    {
        self.host_register_with_flags(id, HostAllocFlags::MAPPED)
    }

    /// Page-lock pageable host memory with the bits of [`HostAllocFlags`].
    pub fn host_register_with_flags(&mut self, id: AllocId, flags: u32) -> (r: Result<(), SimError>)
        ensures
            final(self)@ == old(self)@.host_register_with_flags(id, flags).0,
            r == old(self)@.host_register_with_flags(id, flags).1,
    {
        if flags & !HostAllocFlags::MAPPED != 0 {
            return Err(invalid("host register flags"));
        }
        self.host_register_flags(id, flags & HostAllocFlags::MAPPED != 0)
    }

    pub(crate) fn host_register_flags(
        &mut self,
        id: AllocId,
        mapped: bool,
    ) -> (r: Result<(), SimError>)
        ensures
            final(self)@ == old(self)@.host_register_flags(id, mapped).0,
            r == old(self)@.host_register_flags(id, mapped).1,
    {
        reveal(SimState::host_register_flags);
        self.fail_if_capturing("cannot capture host register")?;
        let a = self.alloc_ref(id)?;
        if a.leases > 0 {
            return Err(SimError::Leased { alloc: id });
        }
        if !a.live || !a.host_pageable || a.host_pinned {
            return Err(invalid("not pageable host"));
        }
        let bytes: u64 = a.bytes;
        self.charge_pin(bytes)?;
        self.tick(self.first_alloc_ns());
        let b = self.alloc_mut(id)?;
        b.host_pageable = false;
        b.host_pinned = true;
        b.host_mapped = mapped;
        b.host_registered = true;
        Ok(())
    }

    /// Make registered host memory pageable again.
    pub fn host_unregister(&mut self, id: AllocId) -> (r: Result<(), SimError>)
        ensures
            final(self)@ == old(self)@.host_unregister(id).0,
            r == old(self)@.host_unregister(id).1,
    {
        self.fail_if_capturing("cannot capture host register")?;
        self.synchronize()?;
        let a = self.alloc_ref(id)?;
        if a.leases > 0 {
            return Err(SimError::Leased { alloc: id });
        }
        if !a.live || !a.host_registered {
            return Err(invalid("not registered"));
        }
        if a.devices.len() > 0 {
            return Err(invalid("host-registered still resident on a device"));
        }
        let bytes: u64 = a.bytes;
        self.refund_pin(bytes);
        let b = self.alloc_mut(id)?;
        b.host_pinned = false;
        b.host_mapped = false;
        b.host_registered = false;
        b.host_pageable = true;
        Ok(())
    }

    /// Free pageable host memory.
    pub fn free_host(&mut self, id: AllocId) -> (r: Result<(), SimError>)
        ensures
            final(self)@ == old(self)@.free_host(id).0,
            r == old(self)@.free_host(id).1,
    {
        self.fail_if_capturing("cannot capture alloc/free")?;
        self.synchronize()?;
        let a = self.alloc_ref(id)?;
        if a.leases > 0 {
            return Err(SimError::Leased { alloc: id });
        }
        if !a.live || !a.host_pageable || a.host_pinned {
            return Err(SimError::UnknownAlloc { alloc: id });
        }
        if a.devices.len() > 0 {
            return Err(invalid("host still resident on a device"));
        }
        let b = self.alloc_mut(id)?;
        b.live = false;
        b.host_pageable = false;
        self.clear_mailbox(id);
        Ok(())
    }

    /// Free page-locked host memory.
    pub fn free_host_pinned(&mut self, id: AllocId) -> (r: Result<(), SimError>)
        ensures
            final(self)@ == old(self)@.free_host_pinned(id).0,
            r == old(self)@.free_host_pinned(id).1,
    {
        self.fail_if_capturing("cannot capture alloc/free")?;
        self.synchronize()?;
        let a = self.alloc_ref(id)?;
        if a.leases > 0 {
            return Err(SimError::Leased { alloc: id });
        }
        if !a.live || !a.host_pinned || a.host_registered {
            return Err(SimError::UnknownAlloc { alloc: id });
        }
        if a.devices.len() > 0 {
            return Err(invalid("host-pinned still resident on a device"));
        }
        let bytes: u64 = a.bytes;
        self.refund_pin(bytes);
        let b = self.alloc_mut(id)?;
        b.live = false;
        b.host_pinned = false;
        b.host_mapped = false;
        b.host_pageable = false;
        self.clear_mailbox(id);
        Ok(())
    }

    /// Wait for every device that holds the allocation, or for all where none does.
    pub(crate) fn synchronize_holders(
        &mut self,
        holders: &Vec<DeviceId>,
    ) -> (r: Result<(), SimError>)
        ensures
            final(self)@ == old(self)@.synchronize_holders(holders@).0,
            r == old(self)@.synchronize_holders(holders@).1,
    {
        if holders.len() == 0 {
            return self.synchronize();
        }
        let mut i: usize = 0;
        while i < holders.len()
            invariant
                i <= holders@.len(),
                old(self)@.synchronize_holders(holders@) == self@.synchronize_holders_from(
                    holders@,
                    i as int,
                ),
            decreases holders@.len() - i,
        {
            self.synchronize_device(holders[i])?;
            i += 1;
        }
        Ok(())
    }

    /// Free device or managed memory now, after waiting for the devices that hold it.
    pub fn free_sync(&mut self, id: AllocId) -> (r: Result<(), SimError>)
        ensures
            final(self)@ == old(self)@.free_sync(id).0,
            r == old(self)@.free_sync(id).1,
    {
        self.fail_if_capturing("cannot capture alloc/free")?;
        let a = self.alloc_ref(id)?;
        if a.host_pinned || a.host_pageable || a.vmm {
            return Err(SimError::UnknownAlloc { alloc: id });
        }
        let holders: Vec<DeviceId> = copy_vec(&a.devices);
        self.synchronize_holders(&holders)?;
        self.free_now(id)
    }

    /// Free device or managed memory that nothing uses.
    pub(crate) fn free_now(&mut self, id: AllocId) -> (r: Result<(), SimError>)
        ensures
            final(self)@ == old(self)@.free_now(id).0,
            r == old(self)@.free_now(id).1,
    {
        reveal(SimState::free_now);
        let a = self.alloc_ref(id)?;
        if a.leases > 0 {
            return Err(SimError::Leased { alloc: id });
        }
        if a.ipc_src.is_some() {
            return self.drop_ipc_import(id);
        }
        if a.share_src.is_some() {
            return self.drop_share_import(id);
        }
        if a.ipc_opens > 0 {
            return Err(invalid("ipc mapped"));
        }
        if a.share_opens > 0 {
            return Err(invalid("share mapped"));
        }
        if !a.live || a.host_pinned {
            return Err(SimError::UnknownAlloc { alloc: id });
        }
        let devices: Vec<DeviceId> = copy_vec(&a.devices);
        let bytes: u64 = a.bytes;
        self.refund_devices(&devices, id, bytes)?;
        let b = self.alloc_mut(id)?;
        b.devices = Vec::new();
        b.live = false;
        self.clear_mailbox(id);
        Ok(())
    }

    /// Handle under which an allocation was exported.
    pub(crate) fn ipc_handle_of(&self, id: AllocId) -> (r: Option<IpcHandleId>)
        ensures
            r == self@.ipc_handle_of(id),
    {
        let mut i: usize = 0;
        while i < self.ipc_handles.len()
            invariant
                i <= order_of(self@.ipc_handles.dom()).len(),
                forall|j: int| 0 <= j < i ==> !#[trigger] self@.ipc_handle_of_at(id, j),
            decreases order_of(self@.ipc_handles.dom()).len() - i,
        {
            if *self.ipc_handles.val_at(i) == id {
                proof {
                    lemma_first_at(
                        order_of(self@.ipc_handles.dom()).len(),
                        |j: int| self@.ipc_handle_of_at(id, j),
                        i as int,
                    );
                }
                return Some(self.ipc_handles.key_at(i));
            }
            i += 1;
        }
        None
    }

    /// The allocation is plain device memory.
    pub(crate) fn device_ipc_ok(&self, id: AllocId) -> (r: Result<(), SimError>)
        ensures
            r == self@.device_ipc_ok(id),
    {
        let a = self.alloc_ref(id)?;
        if !a.live || a.managed || a.vmm || a.host_pinned || a.host_pageable {
            return Err(invalid("not device ipc"));
        }
        if a.ipc_src.is_some() || a.share_src.is_some() || a.pool.is_some()
            || a.devices.len() == 0 {
            return Err(invalid("not device ipc"));
        }
        Ok(())
    }

    /// Export device memory to other processes. The same memory gives the same handle.
    pub fn ipc_get(&mut self, id: AllocId) -> (r: Result<IpcHandleId, SimError>)
        ensures
            final(self)@ == old(self)@.ipc_get(id).0,
            r == old(self)@.ipc_get(id).1,
    {
        self.fail_if_capturing("cannot capture ipc")?;
        self.device_ipc_ok(id)?;
        let device = self.holder_of(id, "not device ipc")?;
        if let Some(h) = self.ipc_handle_of(id) {
            return Ok(h);
        }
        self.pay_alloc(device)?;
        let h = IpcHandleId(self.next.ipc);
        self.next.ipc = self.next.ipc.saturating_add(1);
        self.ipc_handles.insert(h, id);
        Ok(h)
    }

    /// Import exported memory on a device that holds it. The alias shares the memory.
    pub fn ipc_open(
        &mut self,
        device: DeviceId,
        handle: IpcHandleId,
    ) -> (r: Result<AllocId, SimError>)
        ensures
            final(self)@ == old(self)@.ipc_open(device, handle).0,
            r == old(self)@.ipc_open(device, handle).1,
    {
        self.fail_if_capturing("cannot capture ipc")?;
        let src: AllocId = match self.ipc_handles.get(handle) {
            Some(x) => *x,
            None => {
                return Err(invalid("unknown ipc"));
            },
        };
        let a = self.alloc_ref(src)?;
        if !a.live {
            return Err(invalid("freed"));
        }
        if !has_key(&a.devices, device) {
            return Err(invalid("ipc device mismatch"));
        }
        let opens: u32 = a.ipc_opens;
        let mut alias: Alloc = Alloc::blank(a.bytes);
        alias.devices = copy_vec(&a.devices);
        alias.live = true;
        alias.ipc_src = Some(src);
        self.pay_alloc(device)?;
        self.alloc_mut(src)?.ipc_opens = opens.saturating_add(1);
        let id = self.add_alloc(alias);
        Ok(id)
    }

    /// Close an import.
    pub fn ipc_close(&mut self, id: AllocId) -> (r: Result<(), SimError>)
        ensures
            final(self)@ == old(self)@.ipc_close(id).0,
            r == old(self)@.ipc_close(id).1,
    {
        self.fail_if_capturing("cannot capture ipc")?;
        self.drop_ipc_import(id)
    }

    /// Whether an allocation is a live interprocess import.
    pub fn is_ipc_import(&self, id: AllocId) -> (r: Result<bool, SimError>)
        ensures
            r == self@.is_ipc_import(id),
    {
        let a = self.alloc_ref(id)?;
        Ok(a.live && a.ipc_src.is_some())
    }

    /// Handle under which an event was exported.
    pub(crate) fn ipc_event_handle_of(&self, event: EventId) -> (r: Option<IpcEventHandleId>)
        ensures
            r == self@.ipc_event_handle_of(event),
    {
        let mut i: usize = 0;
        while i < self.ipc_event_handles.len()
            invariant
                i <= order_of(self@.ipc_event_handles.dom()).len(),
                forall|j: int| 0 <= j < i ==> !#[trigger] self@.ipc_event_handle_of_at(event, j),
            decreases order_of(self@.ipc_event_handles.dom()).len() - i,
        {
            if *self.ipc_event_handles.val_at(i) == event {
                proof {
                    lemma_first_at(
                        order_of(self@.ipc_event_handles.dom()).len(),
                        |j: int| self@.ipc_event_handle_of_at(event, j),
                        i as int,
                    );
                }
                return Some(self.ipc_event_handles.key_at(i));
            }
            i += 1;
        }
        None
    }

    /// The event may be exported.
    pub(crate) fn event_ipc_ok(&self, event: EventId) -> (r: Result<(), SimError>)
        ensures
            r == self@.event_ipc_ok(event),
    {
        let ev = self.event_ref(event)?;
        if ev.ipc_src.is_some() {
            return Err(invalid("ipc event import"));
        }
        if !ev.interprocess {
            return Err(invalid("not interprocess"));
        }
        Ok(())
    }

    /// Export an event to other processes. The same event gives the same handle.
    pub fn ipc_get_event(&mut self, event: EventId) -> (r: Result<IpcEventHandleId, SimError>)
        ensures
            final(self)@ == old(self)@.ipc_get_event(event).0,
            r == old(self)@.ipc_get_event(event).1,
    {
        self.fail_if_capturing("cannot capture ipc")?;
        self.event_ipc_ok(event)?;
        if let Some(h) = self.ipc_event_handle_of(event) {
            return Ok(h);
        }
        self.tick(1);
        let h = IpcEventHandleId(self.next.ipc_event);
        self.next.ipc_event = self.next.ipc_event.saturating_add(1);
        self.ipc_event_handles.insert(h, event);
        Ok(h)
    }

    /// Import an exported event under a new id. The alias shares the record.
    pub fn ipc_open_event(&mut self, handle: IpcEventHandleId) -> (r: Result<EventId, SimError>)
        ensures
            final(self)@ == old(self)@.ipc_open_event(handle).0,
            r == old(self)@.ipc_open_event(handle).1,
    {
        self.fail_if_capturing("cannot capture ipc")?;
        let src: EventId = match self.ipc_event_handles.get(handle) {
            Some(x) => *x,
            None => {
                return Err(invalid("unknown ipc event"));
            },
        };
        self.event_ipc_ok(src)?;
        self.tick(1);
        let id = self.alloc_imported_event()?;
        self.count_event_import(src);
        let mut ev: Ev = Ev::new(false);
        ev.interprocess = true;
        ev.ipc_src = Some(src);
        self.events.insert(id, ev);
        Ok(id)
    }

    /// One more import of an event.
    pub(crate) fn count_event_import(&mut self, src: EventId)
        ensures
            final(self)@ == old(self)@.count_event_import(src),
    {
        if let Some(ev) = self.events.get_mut(src) {
            ev.ipc_opens = ev.ipc_opens.saturating_add(1);
        }
    }

    /// Whether an event is an interprocess import.
    pub fn is_ipc_event_import(&self, event: EventId) -> (r: Result<bool, SimError>)
        ensures
            r == self@.is_ipc_event_import(event),
    {
        let ev = self.event_ref(event)?;
        Ok(ev.ipc_src.is_some())
    }

    /// Id of a new imported event: the first free one from the next on, wrapping.
    pub(crate) fn alloc_imported_event(&mut self) -> (r: Result<EventId, SimError>)
        ensures
            final(self)@ == old(self)@.alloc_imported_event().0,
            r == old(self)@.alloc_imported_event().1,
    {
        let start: u32 = if self.next.imported_event == 0 {
            1
        } else {
            self.next.imported_event
        };
        let found: Option<u32> = self.free_event_id(start);
        match found {
            None => Err(invalid("event id space")),
            Some(n) => {
                self.next.imported_event = n.checked_add(1).unwrap_or(1);
                Ok(EventId(n))
            },
        }
    }
}

/// The `k`-th event number after `start`. The numbers wrap from the last one to one.
pub open spec fn event_number(start: u32, k: int) -> u32 {
    if start + k <= u32::MAX {
        (start + k) as u32
    } else {
        (start + k - u32::MAX) as u32
    }
}

impl SimState {
    /// First unused event number from the `k`-th after `start` on.
    pub open spec fn free_event_from(self, start: u32, k: int) -> Option<u32>
        decreases u32::MAX - k,
    {
        if k >= u32::MAX {
            None
        } else if !self.events.contains_key(EventId(event_number(start, k))) {
            Some(event_number(start, k))
        } else {
            self.free_event_from(start, k + 1)
        }
    }

    /// First unused event number from `start` on.
    pub open spec fn free_event_id(self, start: u32) -> Option<u32> {
        self.free_event_from(start, 0)
    }
}

impl Sim {
    /// First unused event number from `start` on.
    pub(crate) fn free_event_id(&self, start: u32) -> (r: Option<u32>)
        requires
            start > 0,
        ensures
            r == self@.free_event_id(start),
    {
        let mut n: u32 = start;
        let mut k: u32 = 0;
        while k < u32::MAX
            invariant
                start > 0,
                n == event_number(start, k as int),
                self@.free_event_id(start) == self@.free_event_from(start, k as int),
            decreases u32::MAX - k,
        {
            if !self.events.contains_key(EventId(n)) {
                return Some(n);
            }
            n = if n == u32::MAX {
                1
            } else {
                n + 1
            };
            k += 1;
        }
        None
    }
}

} // verus!
