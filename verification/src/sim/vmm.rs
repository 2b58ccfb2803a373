//! Reserved address ranges, physical handles and multicast objects.
use vstd::prelude::*;
use crate::error::{invalid, SimError};
use crate::ids::{AllocId, DeviceId, MemHandleId, MulticastId, OpId, Piece, StreamId};
use crate::list::{
    copy_vec, drop_key, each_ok, first_some, first_where, has_key, lemma_each_ok, lemma_first_at,
    lemma_first_some, ok_view, one, picked, push_new, with_new, without,
};
use crate::num::{clamp_u32, max_u64, min_u64};
use crate::ops::KernelKind;
use crate::profile::LinkKind;
use crate::sim::{Sim, SimState};
use crate::spans::{maps_cover, overlaps_map, vmm_covers, vmm_overlap};
use crate::state::{Alloc, AllocView, MemHandle, Multicast, MulticastView, NextIds};
use crate::table::{count, KeySet, Table, vacant};

verus! {

impl SimState {
    /// Value of [`Sim::check_va_align`].
    pub open spec fn check_va_align(self, n: u64) -> Result<(), SimError> {
        if self.profile.va_aligned(n) {
            Ok(())
        } else {
            Err(invalid("unaligned VA"))
        }
    }

    /// Value of [`Sim::check_mc_align`].
    pub open spec fn check_mc_align(self, n: u64) -> Result<(), SimError> {
        if self.profile.multicast_aligned(n) {
            Ok(())
        } else {
            Err(invalid("unaligned multicast"))
        }
    }

    /// Effect of [`Sim::va_reserve`].
    pub open spec fn va_reserve(self, bytes: u64) -> (SimState, Result<AllocId, SimError>) {
        let s = self;
        if bytes == 0 {
            (s, Err(invalid("zero-byte alloc")))
        } else {
            match s.check_va_align(bytes) {
                Err(e) => (s, Err(e)),
                Ok(_v) => match s.fail_if_capturing("cannot capture alloc/free") {
                    Err(e) => (s, Err(e)),
                    Ok(_v) => {
                        let s = s.tick(s.first_alloc_ns());
                        let a = AllocView::blank(bytes);
                        let a = AllocView { live: true, ..a };
                        let a = AllocView { vmm: true, ..a };
                        let (s, id) = s.add_alloc(a);
                        (s, Ok(id))
                    },
                },
            }
        }
    }

    /// Value of [`Sim::is_vmm`].
    pub open spec fn is_vmm(self, alloc: AllocId) -> Result<bool, SimError> {
        match self.alloc_ref(alloc) {
            Err(e) => Err(e),
            Ok(a) => Ok(a.live && a.vmm),
        }
    }

    /// Effect of [`Sim::va_map`].
    pub open spec fn va_map(
        self,
        id: AllocId,
        device: DeviceId,
    ) -> (SimState, Result<(), SimError>) {
        let s = self;
        match s.alloc_ref(id) {
            Err(e) => (s, Err(e)),
            Ok(a) => {
                let bytes = a.bytes;
                s.va_map_range(id, device, 0, bytes)
            },
        }
    }

    /// Value of [`Sim::span_mappable`].
    pub open spec fn span_mappable(
        self,
        id: AllocId,
        device: DeviceId,
        offset: u64,
        bytes: u64,
    ) -> Result<(), SimError> {
        match self.alloc_ref(id) {
            Err(e) => Err(e),
            Ok(a) => if a.leases > 0 {
                Err(SimError::Leased { alloc: id })
            } else if !a.live || !a.vmm {
                Err(invalid("not a VA"))
            } else if offset.saturating_add(bytes) > a.bytes {
                Err(invalid("range past VA"))
            } else {
                match self.check_va_align(offset) {
                    Err(e) => Err(e),
                    Ok(_v) => if overlaps_map(a.vmm_maps, device, offset, bytes) {
                        Err(invalid("already mapped"))
                    } else {
                        Ok(())
                    },
                }
            },
        }
    }

    /// Effect of [`Sim::add_map`].
    pub open spec fn add_map(
        self,
        id: AllocId,
        device: DeviceId,
        offset: u64,
        bytes: u64,
    ) -> (SimState, Result<(), SimError>) {
        let s = self;
        match s.alloc_ref(id) {
            Err(e) => (s, Err(e)),
            Ok(a) => {
                let a = AllocView { vmm_maps: a.vmm_maps.push((device, offset, bytes)), ..a };
                let a = AllocView { devices: with_new(a.devices, device), ..a };
                let s = SimState { allocs: s.allocs.insert(id, a), ..s };
                let s = SimState { vmm_idle: without(s.vmm_idle, id), ..s };
                (s, Ok(()))
            },
        }
    }

    /// Effect of [`Sim::va_create`].
    pub open spec fn va_create(
        self,
        device: DeviceId,
        bytes: u64,
    ) -> (SimState, Result<MemHandleId, SimError>) {
        let s = self;
        if bytes == 0 {
            (s, Err(invalid("zero-byte alloc")))
        } else {
            match s.check_va_align(bytes) {
                Err(e) => (s, Err(e)),
                Ok(_v) => match s.fail_if_capturing("cannot capture alloc/free") {
                    Err(e) => (s, Err(e)),
                    Ok(_v) => match s.profile.gpu(device) {
                        Err(e) => (s, Err(e)),
                        Ok(_gpu) => match s.reserve_hbm(device, bytes) {
                            (s, Err(e)) => (s, Err(e)),
                            (s, Ok(_v)) => match s.pay_alloc(device) {
                                (s, Err(e)) => (s, Err(e)),
                                (s, Ok(_v)) => {
                                    let id = MemHandleId(s.next.handle);
                                    let s = SimState {
                                        next: NextIds {
                                            handle: s.next.handle.saturating_add(1),
                                            ..s.next
                                        },
                                        ..s
                                    };
                                    let s = SimState {
                                        mem_handles: s.mem_handles.insert(
                                            id,
                                            MemHandle {
                                                device,
                                                bytes,
                                                refs: 1,
                                                maps: 0,
                                                charged: true,
                                            },
                                        ),
                                        ..s
                                    };
                                    (s, Ok(id))
                                },
                            },
                        },
                    },
                },
            }
        }
    }

    /// Effect of [`Sim::va_map_handle`].
    pub open spec fn va_map_handle(
        self,
        id: AllocId,
        device: DeviceId,
        offset: u64,
        handle: MemHandleId,
    ) -> (SimState, Result<(), SimError>) {
        let s = self;
        match s.fail_if_capturing("cannot capture alloc/free") {
            Err(e) => (s, Err(e)),
            Ok(_v) => match s.handle_ref(handle) {
                Err(e) => (s, Err(e)),
                Ok(h) => if h.refs == 0 {
                    (s, Err(invalid("handle released")))
                } else if h.device != device {
                    (s, Err(invalid("handle device mismatch")))
                } else {
                    let bytes = h.bytes;
                    match s.span_mappable(id, device, offset, bytes) {
                        Err(e) => (s, Err(e)),
                        Ok(_v) => match s.pay_alloc(device) {
                            (s, Err(e)) => (s, Err(e)),
                            (s, Ok(_v)) => match s.add_map(id, device, offset, bytes) {
                                (s, Err(e)) => (s, Err(e)),
                                (s, Ok(_v)) => match s.handle_ref(handle) {
                                    Err(e) => (s, Err(e)),
                                    Ok(k) => {
                                        let k = MemHandle { maps: k.maps.saturating_add(1), ..k };
                                        let s = SimState {
                                            mem_handles: s.mem_handles.insert(handle, k),
                                            ..s
                                        };
                                        let s = SimState {
                                            vmm_handle_at: s.vmm_handle_at.insert(
                                                Piece(id, device, offset, bytes),
                                                handle,
                                            ),
                                            ..s
                                        };
                                        (s, Ok(()))
                                    },
                                },
                            },
                        },
                    }
                },
            },
        }
    }

    /// Effect of [`Sim::va_release_handle`].
    pub open spec fn va_release_handle(
        self,
        handle: MemHandleId,
    ) -> (SimState, Result<(), SimError>) {
        let s = self;
        match s.fail_if_capturing("cannot capture alloc/free") {
            Err(e) => (s, Err(e)),
            Ok(_v) => match s.handle_ref(handle) {
                Err(e) => (s, Err(e)),
                Ok(h) => {
                    let refs = h.refs;
                    if refs == 0 {
                        (s, Err(invalid("handle released")))
                    } else {
                        match s.handle_ref(handle) {
                            Err(e) => (s, Err(e)),
                            Ok(h) => {
                                let s = SimState {
                                    mem_handles: s.mem_handles.insert(
                                        handle,
                                        MemHandle { refs: refs.saturating_sub(1), ..h },
                                    ),
                                    ..s
                                };
                                let s = s.tick(1);
                                s.maybe_refund_handle(handle)
                            },
                        }
                    }
                },
            },
        }
    }

    /// Whether [`Sim::map_at`] finds something at position `i`.
    pub open spec fn map_at_at(
        self,
        maps: Seq<(DeviceId, u64, u64)>,
        device: DeviceId,
        offset: u64,
        i: int,
    ) -> bool {
        maps[i].0 == device && maps[i].1 == offset
    }

    /// Value of [`Sim::map_at`].
    pub open spec fn map_at(
        self,
        maps: Seq<(DeviceId, u64, u64)>,
        device: DeviceId,
        offset: u64,
    ) -> Option<u64> {
        match first_where(maps.len(), |i: int| self.map_at_at(maps, device, offset, i)) {
            Some(i) => Some(maps[i].2),
            None => None,
        }
    }

    /// Effect of [`Sim::va_retain_handle`].
    pub open spec fn va_retain_handle(
        self,
        id: AllocId,
        device: DeviceId,
        offset: u64,
    ) -> (SimState, Result<MemHandleId, SimError>) {
        let s = self;
        match s.fail_if_capturing("cannot capture alloc/free") {
            Err(e) => (s, Err(e)),
            Ok(_v) => match s.profile.gpu(device) {
                Err(e) => (s, Err(e)),
                Ok(_gpu) => match s.alloc_ref(id) {
                    Err(e) => (s, Err(e)),
                    Ok(a) => if !a.live || !a.vmm {
                        (s, Err(invalid("not a VA")))
                    } else {
                        match s.map_at(a.vmm_maps, device, offset) {
                            Some(n) => {
                                let bytes = n;
                                s.retain_piece(id, device, offset, bytes)
                            },
                            None => (s, Err(invalid("no such map"))),
                        }
                    },
                },
            },
        }
    }

    /// Effect of [`Sim::retain_piece`].
    #[verifier::opaque]
    pub open spec fn retain_piece(
        self,
        id: AllocId,
        device: DeviceId,
        offset: u64,
        bytes: u64,
    ) -> (SimState, Result<MemHandleId, SimError>) {
        let s = self;
        let known = (match s.vmm_handle_at.get(Piece(id, device, offset, bytes)) {
            Some(h) => Some(h),
            None => None,
        });
        match known {
            Some(handle) => match s.handle_ref(handle) {
                Err(e) => (s, Err(e)),
                Ok(was) => {
                    let refs = was.refs;
                    match s.handle_ref(handle) {
                        Err(e) => (s, Err(e)),
                        Ok(h) => {
                            let s = SimState {
                                mem_handles: s.mem_handles.insert(
                                    handle,
                                    MemHandle { refs: refs.saturating_add(1), ..h },
                                ),
                                ..s
                            };
                            match s.pay_alloc(device) {
                                (s, Err(e)) => (s, Err(e)),
                                (s, Ok(_v)) => (s, Ok(handle)),
                            }
                        },
                    }
                },
            },
            None => match s.pay_alloc(device) {
                (s, Err(e)) => (s, Err(e)),
                (s, Ok(_v)) => {
                    let charged = !s.mc_at.contains(Piece(id, device, offset, bytes));
                    let h = MemHandleId(s.next.handle);
                    let s = SimState {
                        next: NextIds { handle: s.next.handle.saturating_add(1), ..s.next },
                        ..s
                    };
                    let s = SimState {
                        mem_handles: s.mem_handles.insert(
                            h,
                            MemHandle { device, bytes, refs: 1, maps: 1, charged },
                        ),
                        ..s
                    };
                    let s = SimState {
                        vmm_handle_at: s.vmm_handle_at.insert(Piece(id, device, offset, bytes), h),
                        ..s
                    };
                    (s, Ok(h))
                },
            },
        }
    }

    /// Value of [`Sim::is_handle_live`].
    pub open spec fn is_handle_live(self, handle: MemHandleId) -> Result<bool, SimError> {
        match self.handle_ref(handle) {
            Err(e) => Err(e),
            Ok(h) => Ok(h.refs > 0),
        }
    }

    /// Value of [`Sim::handle_maps`].
    pub open spec fn handle_maps(self, handle: MemHandleId) -> Result<u32, SimError> {
        match self.handle_ref(handle) {
            Err(e) => Err(e),
            Ok(h) => Ok(h.maps),
        }
    }

    /// Value of [`Sim::handle_refs`].
    pub open spec fn handle_refs(self, handle: MemHandleId) -> Result<u32, SimError> {
        match self.handle_ref(handle) {
            Err(e) => Err(e),
            Ok(h) => Ok(h.refs),
        }
    }

    /// Effect of [`Sim::va_map_range`].
    pub open spec fn va_map_range(
        self,
        id: AllocId,
        device: DeviceId,
        offset: u64,
        bytes: u64,
    ) -> (SimState, Result<(), SimError>) {
        let s = self;
        match s.fail_if_capturing("cannot capture alloc/free") {
            Err(e) => (s, Err(e)),
            Ok(_v) => match s.profile.gpu(device) {
                Err(e) => (s, Err(e)),
                Ok(_gpu) => match s.alloc_ref(id) {
                    Err(e) => (s, Err(e)),
                    Ok(a) => if a.leases > 0 {
                        (s, Err(SimError::Leased { alloc: id }))
                    } else if !a.live || !a.vmm {
                        (s, Err(invalid("not a VA")))
                    } else if bytes == 0 {
                        (s, Err(invalid("zero-byte alloc")))
                    } else if offset.saturating_add(bytes) > a.bytes {
                        (s, Err(invalid("range past VA")))
                    } else {
                        match s.check_va_align(offset) {
                            Err(e) => (s, Err(e)),
                            Ok(_v) => match s.check_va_align(bytes) {
                                Err(e) => (s, Err(e)),
                                Ok(_v) => match s.span_mappable(id, device, offset, bytes) {
                                    Err(e) => (s, Err(e)),
                                    Ok(_v) => match s.reserve_hbm(device, bytes) {
                                        (s, Err(e)) => (s, Err(e)),
                                        (s, Ok(_v)) => match s.pay_alloc(device) {
                                            (s, Err(e)) => (s, Err(e)),
                                            (s, Ok(_v)) => s.add_map(id, device, offset, bytes),
                                        },
                                    },
                                },
                            },
                        }
                    },
                },
            },
        }
    }

    /// Value of [`Sim::unmappable`].
    pub open spec fn unmappable(self, id: AllocId) -> Result<(), SimError> {
        match self.alloc_ref(id) {
            Err(e) => Err(e),
            Ok(a) => if a.leases > 0 {
                Err(SimError::Leased { alloc: id })
            } else if !a.live || !a.vmm {
                Err(invalid("not a VA"))
            } else {
                Ok(())
            },
        }
    }

    /// Effect of [`Sim::drop_maps`].
    pub open spec fn drop_maps(
        self,
        id: AllocId,
        maps: Seq<(DeviceId, u64, u64)>,
    ) -> (SimState, Result<(), SimError>) {
        let s = self;
        s.drop_maps_from(id, maps, 0)
    }

    /// [`Sim::drop_maps`] from position `i` on.
    pub open spec fn drop_maps_from(
        self,
        id: AllocId,
        maps: Seq<(DeviceId, u64, u64)>,
        i: int,
    ) -> (SimState, Result<(), SimError>)
        decreases maps.len() - i,
    {
        let s = self;
        if 0 <= i < maps.len() {
            match s.drop_vmm_physical(id, maps[i].0, maps[i].1, maps[i].2) {
                (s, Err(e)) => (s, Err(e)),
                (s, Ok(_v)) => s.drop_maps_from(id, maps, i + 1),
            }
        } else {
            (s, Ok(()))
        }
    }

    /// Effect of [`Sim::va_unmap`].
    pub open spec fn va_unmap(self, id: AllocId) -> (SimState, Result<(), SimError>) {
        let s = self;
        match s.fail_if_capturing("cannot capture alloc/free") {
            Err(e) => (s, Err(e)),
            Ok(_v) => match s.synchronize() {
                (s, Err(e)) => (s, Err(e)),
                (s, Ok(_v)) => match s.unmappable(id) {
                    Err(e) => (s, Err(e)),
                    Ok(_v) => match s.alloc_ref(id) {
                        Err(e) => (s, Err(e)),
                        Ok(a) => {
                            let maps = a.vmm_maps;
                            if maps.len() == 0 {
                                (s, Err(invalid("not mapped")))
                            } else {
                                match s.drop_maps(id, maps) {
                                    (s, Err(e)) => (s, Err(e)),
                                    (s, Ok(_v)) => match s.alloc_ref(id) {
                                        Err(e) => (s, Err(e)),
                                        Ok(b) => {
                                            let b = AllocView {
                                                vmm_maps: Seq::empty(),
                                                devices: Seq::empty(),
                                                accessed_by: Set::empty(),
                                                vmm_write_by: Set::empty(),
                                                ..b
                                            };
                                            let s = SimState {
                                                allocs: s.allocs.insert(id, b),
                                                ..s
                                            };
                                            let s = SimState { mc_vas: s.mc_vas.remove(id), ..s };
                                            (s, Ok(()))
                                        },
                                    },
                                }
                            }
                        },
                    },
                },
            },
        }
    }

    /// Position `i` of [`Sim::has_map`].
    pub open spec fn has_map_at(
        self,
        maps: Seq<(DeviceId, u64, u64)>,
        device: DeviceId,
        offset: u64,
        bytes: u64,
        i: int,
    ) -> bool {
        if maps[i].0 == device && maps[i].1 == offset && maps[i].2 == bytes {
            true
        } else {
            false
        }
    }

    /// Value of [`Sim::has_map`].
    pub open spec fn has_map(
        self,
        maps: Seq<(DeviceId, u64, u64)>,
        device: DeviceId,
        offset: u64,
        bytes: u64,
    ) -> bool {
        exists|i: int| 0 <= i < maps.len() && #[trigger] self.has_map_at(
            maps,
            device,
            offset,
            bytes,
            i,
        )
    }

    /// Position `i` of [`Sim::maps_on`].
    pub open spec fn maps_on_at(
        self,
        maps: Seq<(DeviceId, u64, u64)>,
        device: DeviceId,
        i: int,
    ) -> bool {
        if maps[i].0 == device {
            true
        } else {
            false
        }
    }

    /// Value of [`Sim::maps_on`].
    pub open spec fn maps_on(self, maps: Seq<(DeviceId, u64, u64)>, device: DeviceId) -> bool {
        exists|i: int| 0 <= i < maps.len() && #[trigger] self.maps_on_at(maps, device, i)
    }

    /// Effect of [`Sim::va_unmap_range`].
    pub open spec fn va_unmap_range(
        self,
        id: AllocId,
        device: DeviceId,
        offset: u64,
        bytes: u64,
    ) -> (SimState, Result<(), SimError>) {
        let s = self;
        match s.fail_if_capturing("cannot capture alloc/free") {
            Err(e) => (s, Err(e)),
            Ok(_v) => match s.synchronize() {
                (s, Err(e)) => (s, Err(e)),
                (s, Ok(_v)) => match s.unmappable(id) {
                    Err(e) => (s, Err(e)),
                    Ok(_v) => match s.alloc_ref(id) {
                        Err(e) => (s, Err(e)),
                        Ok(a) => if !s.has_map(a.vmm_maps, device, offset, bytes) {
                            (s, Err(invalid("no such map")))
                        } else {
                            match s.drop_vmm_physical(id, device, offset, bytes) {
                                (s, Err(e)) => (s, Err(e)),
                                (s, Ok(_v)) => s.forget_map(id, device, offset, bytes),
                            }
                        },
                    },
                },
            },
        }
    }
}

impl Sim {
    pub(crate) fn check_va_align(&self, n: u64) -> (r: Result<(), SimError>)
        ensures
            r == self@.check_va_align(n),
    {
        if self.profile.va_aligned(n) {
            Ok(())
        } else {
            Err(invalid("unaligned VA"))
        }
    }

    pub(crate) fn check_mc_align(&self, n: u64) -> (r: Result<(), SimError>)
        ensures
            r == self@.check_mc_align(n),
    {
        if self.profile.multicast_aligned(n) {
            Ok(())
        } else {
            Err(invalid("unaligned multicast"))
        }
    }

    /// Reserve an address range without memory.
    pub fn va_reserve(&mut self, bytes: u64) -> (r: Result<AllocId, SimError>)
        ensures
            final(self)@ == old(self)@.va_reserve(bytes).0,
            r == old(self)@.va_reserve(bytes).1,
    {
        if bytes == 0 {
            return Err(invalid("zero-byte alloc"));
        }
        self.check_va_align(bytes)?;
        self.fail_if_capturing("cannot capture alloc/free")?;
        self.tick(self.first_alloc_ns());
        let mut a: Alloc = Alloc::blank(bytes);
        a.live = true;
        a.vmm = true;
        let id = self.add_alloc(a);
        Ok(id)
    }

    /// Whether the allocation is a live reserved range.
    pub fn is_vmm(&self, alloc: AllocId) -> (r: Result<bool, SimError>)
        ensures
            r == self@.is_vmm(alloc),
    {
        let a = self.alloc_ref(alloc)?;
        Ok(a.live && a.vmm)
    }

    /// Map new memory of a device to a whole range.
    pub fn va_map(&mut self, id: AllocId, device: DeviceId) -> (r: Result<(), SimError>)
        ensures
            final(self)@ == old(self)@.va_map(id, device).0,
            r == old(self)@.va_map(id, device).1,
    {
        let a = self.alloc_ref(id)?;
        let bytes: u64 = a.bytes;
        self.va_map_range(id, device, 0, bytes)
    }

    /// The span of a range may get a map of the device.
    pub(crate) fn span_mappable(
        &self,
        id: AllocId,
        device: DeviceId,
        offset: u64,
        bytes: u64,
    ) -> (r: Result<(), SimError>)
        ensures
            r == self@.span_mappable(id, device, offset, bytes),
    {
        let a = self.alloc_ref(id)?;
        if a.leases > 0 {
            return Err(SimError::Leased { alloc: id });
        }
        if !a.live || !a.vmm {
            return Err(invalid("not a VA"));
        }
        if offset.saturating_add(bytes) > a.bytes {
            return Err(invalid("range past VA"));
        }
        self.check_va_align(offset)?;
        if vmm_overlap(&a.vmm_maps, device, offset, bytes) {
            return Err(invalid("already mapped"));
        }
        Ok(())
    }

    /// Note a map of a device in a range.
    pub(crate) fn add_map(
        &mut self,
        id: AllocId,
        device: DeviceId,
        offset: u64,
        bytes: u64,
    ) -> (r: Result<(), SimError>)
        ensures
            final(self)@ == old(self)@.add_map(id, device, offset, bytes).0,
            r == old(self)@.add_map(id, device, offset, bytes).1,
    {
        let a = self.alloc_mut(id)?;
        a.vmm_maps.push((device, offset, bytes));
        push_new(&mut a.devices, device);
        drop_key(&mut self.vmm_idle, id);
        Ok(())
    }

    /// Physical memory of a device, without a map.
    pub fn va_create(&mut self, device: DeviceId, bytes: u64) -> (r: Result<MemHandleId, SimError>)
        ensures
            final(self)@ == old(self)@.va_create(device, bytes).0,
            r == old(self)@.va_create(device, bytes).1,
    {
        if bytes == 0 {
            return Err(invalid("zero-byte alloc"));
        }
        self.check_va_align(bytes)?;
        self.fail_if_capturing("cannot capture alloc/free")?;
        let _gpu = self.profile.gpu(device)?;
        self.reserve_hbm(device, bytes)?;
        self.pay_alloc(device)?;
        let id = MemHandleId(self.next.handle);
        self.next.handle = self.next.handle.saturating_add(1);
        self.mem_handles.insert(id, MemHandle { device, bytes, refs: 1, maps: 0, charged: true });
        Ok(id)
    }

    /// Map existing physical memory into a range.
    pub fn va_map_handle(
        &mut self,
        id: AllocId,
        device: DeviceId,
        offset: u64,
        handle: MemHandleId,
    ) -> (r: Result<(), SimError>)
        ensures
            final(self)@ == old(self)@.va_map_handle(id, device, offset, handle).0,
            r == old(self)@.va_map_handle(id, device, offset, handle).1,
    {
        self.fail_if_capturing("cannot capture alloc/free")?;
        let h = self.handle_ref(handle)?;
        if h.refs == 0 {
            return Err(invalid("handle released"));
        }
        if h.device != device {
            return Err(invalid("handle device mismatch"));
        }
        let bytes: u64 = h.bytes;
        self.span_mappable(id, device, offset, bytes)?;
        self.pay_alloc(device)?;
        self.add_map(id, device, offset, bytes)?;
        let k = self.handle_mut(handle)?;
        k.maps = k.maps.saturating_add(1);
        self.vmm_handle_at.insert(Piece(id, device, offset, bytes), handle);
        Ok(())
    }

    /// Give up one reference to physical memory.
    pub fn va_release_handle(&mut self, handle: MemHandleId) -> (r: Result<(), SimError>)
        ensures
            final(self)@ == old(self)@.va_release_handle(handle).0,
            r == old(self)@.va_release_handle(handle).1,
    {
        self.fail_if_capturing("cannot capture alloc/free")?;
        let h = self.handle_ref(handle)?;
        let refs: u32 = h.refs;
        if refs == 0 {
            return Err(invalid("handle released"));
        }
        self.handle_mut(handle)?.refs = refs.saturating_sub(1);
        self.tick(1);
        self.maybe_refund_handle(handle)
    }

    /// Length of the map of a device that begins at an offset.
    pub(crate) fn map_at(
        &self,
        maps: &Vec<(DeviceId, u64, u64)>,
        device: DeviceId,
        offset: u64,
    ) -> (r: Option<u64>)
        ensures
            r == self@.map_at(maps@, device, offset),
    {
        let mut i: usize = 0;
        while i < maps.len()
            invariant
                i <= maps@.len(),
                forall|j: int| 0 <= j < i ==> !#[trigger] self@.map_at_at(maps@, device, offset, j),
            decreases maps@.len() - i,
        {
            if maps[i].0 == device && maps[i].1 == offset {
                proof {
                    lemma_first_at(
                        maps@.len(),
                        |j: int| self@.map_at_at(maps@, device, offset, j),
                        i as int,
                    );
                }
                return Some(maps[i].2);
            }
            i += 1;
        }
        None
    }

    /// One more reference to the physical memory of a map, which gets a handle if it has none.
    pub fn va_retain_handle(
        &mut self,
        id: AllocId,
        device: DeviceId,
        offset: u64,
    ) -> (r: Result<MemHandleId, SimError>)
        ensures
            final(self)@ == old(self)@.va_retain_handle(id, device, offset).0,
            r == old(self)@.va_retain_handle(id, device, offset).1,
    {
        self.fail_if_capturing("cannot capture alloc/free")?;
        let _gpu = self.profile.gpu(device)?;
        let a = self.alloc_ref(id)?;
        if !a.live || !a.vmm {
            return Err(invalid("not a VA"));
        }
        let bytes: u64 = match self.map_at(&a.vmm_maps, device, offset) {
            Some(n) => n,
            None => {
                return Err(invalid("no such map"));
            },
        };
        self.retain_piece(id, device, offset, bytes)
    }

    pub(crate) fn retain_piece(
        &mut self,
        id: AllocId,
        device: DeviceId,
        offset: u64,
        bytes: u64,
    ) -> (r: Result<MemHandleId, SimError>)
        ensures
            final(self)@ == old(self)@.retain_piece(id, device, offset, bytes).0,
            r == old(self)@.retain_piece(id, device, offset, bytes).1,
    {
        reveal(SimState::retain_piece);
        let known: Option<MemHandleId> = match self.vmm_handle_at.get(
            Piece(id, device, offset, bytes),
        ) {
            Some(h) => Some(*h),
            None => None,
        };
        match known {
            Some(handle) => {
                let was = self.handle_ref(handle)?;
                let refs: u32 = was.refs;
                self.handle_mut(handle)?.refs = refs.saturating_add(1);
                self.pay_alloc(device)?;
                Ok(handle)
            },
            None => {
                self.pay_alloc(device)?;
                let charged: bool = !self.mc_at.contains(Piece(id, device, offset, bytes));
                let h = MemHandleId(self.next.handle);
                self.next.handle = self.next.handle.saturating_add(1);
                self.mem_handles.insert(h, MemHandle { device, bytes, refs: 1, maps: 1, charged });
                self.vmm_handle_at.insert(Piece(id, device, offset, bytes), h);
                Ok(h)
            },
        }
    }

    /// Whether physical memory still has a reference.
    pub fn is_handle_live(&self, handle: MemHandleId) -> (r: Result<bool, SimError>)
        ensures
            r == self@.is_handle_live(handle),
    {
        let h = self.handle_ref(handle)?;
        Ok(h.refs > 0)
    }

    /// Maps of physical memory.
    pub fn handle_maps(&self, handle: MemHandleId) -> (r: Result<u32, SimError>)
        ensures
            r == self@.handle_maps(handle),
    {
        let h = self.handle_ref(handle)?;
        Ok(h.maps)
    }

    /// References to physical memory.
    pub fn handle_refs(&self, handle: MemHandleId) -> (r: Result<u32, SimError>)
        ensures
            r == self@.handle_refs(handle),
    {
        let h = self.handle_ref(handle)?;
        Ok(h.refs)
    }

    /// Map new memory of a device to a span of a range.
    pub fn va_map_range(
        &mut self,
        id: AllocId,
        device: DeviceId,
        offset: u64,
        bytes: u64,
    ) -> (r: Result<(), SimError>)
        ensures
            final(self)@ == old(self)@.va_map_range(id, device, offset, bytes).0,
            r == old(self)@.va_map_range(id, device, offset, bytes).1,
    {
        self.fail_if_capturing("cannot capture alloc/free")?;
        let _gpu = self.profile.gpu(device)?;
        let a = self.alloc_ref(id)?;
        if a.leases > 0 {
            return Err(SimError::Leased { alloc: id });
        }
        if !a.live || !a.vmm {
            return Err(invalid("not a VA"));
        }
        if bytes == 0 {
            return Err(invalid("zero-byte alloc"));
        }
        if offset.saturating_add(bytes) > a.bytes {
            return Err(invalid("range past VA"));
        }
        self.check_va_align(offset)?;
        self.check_va_align(bytes)?;
        self.span_mappable(id, device, offset, bytes)?;
        self.reserve_hbm(device, bytes)?;
        self.pay_alloc(device)?;
        self.add_map(id, device, offset, bytes)
    }

    /// The range is live and no kernel uses it.
    pub(crate) fn unmappable(&self, id: AllocId) -> (r: Result<(), SimError>)
        ensures
            r == self@.unmappable(id),
    {
        let a = self.alloc_ref(id)?;
        if a.leases > 0 {
            return Err(SimError::Leased { alloc: id });
        }
        if !a.live || !a.vmm {
            return Err(invalid("not a VA"));
        }
        Ok(())
    }

    pub(crate) fn drop_maps(
        &mut self,
        id: AllocId,
        maps: &Vec<(DeviceId, u64, u64)>,
    ) -> (r: Result<(), SimError>)
        ensures
            final(self)@ == old(self)@.drop_maps(id, maps@).0,
            r == old(self)@.drop_maps(id, maps@).1,
    {
        let mut i: usize = 0;
        while i < maps.len()
            invariant
                i <= maps@.len(),
                old(self)@.drop_maps(id, maps@) == self@.drop_maps_from(id, maps@, i as int),
            decreases maps@.len() - i,
        {
            self.drop_vmm_physical(id, maps[i].0, maps[i].1, maps[i].2)?;
            i += 1;
        }
        Ok(())
    }

    /// Drop every map of a range, after waiting for all work.
    pub fn va_unmap(&mut self, id: AllocId) -> (r: Result<(), SimError>)
        ensures
            final(self)@ == old(self)@.va_unmap(id).0,
            r == old(self)@.va_unmap(id).1,
    {
        self.fail_if_capturing("cannot capture alloc/free")?;
        self.synchronize()?;
        self.unmappable(id)?;
        let a = self.alloc_ref(id)?;
        let maps: Vec<(DeviceId, u64, u64)> = copy_vec(&a.vmm_maps);
        if maps.len() == 0 {
            return Err(invalid("not mapped"));
        }
        self.drop_maps(id, &maps)?;
        let b = self.alloc_mut(id)?;
        b.vmm_maps = Vec::new();
        b.devices = Vec::new();
        b.accessed_by = KeySet::new();
        b.vmm_write_by = KeySet::new();
        let _gone = self.mc_vas.remove(id);
        Ok(())
    }

    /// Whether a span is mapped as it stands.
    pub(crate) fn has_map(
        &self,
        maps: &Vec<(DeviceId, u64, u64)>,
        device: DeviceId,
        offset: u64,
        bytes: u64,
    ) -> (r: bool)
        ensures
            r == self@.has_map(maps@, device, offset, bytes),
    {
        let mut i: usize = 0;
        while i < maps.len()
            invariant
                i <= maps@.len(),
                forall|j: int| 0 <= j < i ==> !#[trigger] self@.has_map_at(
                    maps@,
                    device,
                    offset,
                    bytes,
                    j,
                ),
            decreases maps@.len() - i,
        {
            let ghost _here = self@.has_map_at(maps@, device, offset, bytes, i as int);
            if maps[i].0 == device && maps[i].1 == offset && maps[i].2 == bytes {
                return true;
            }
            i += 1;
        }
        false
    }

    /// Whether a device has a map.
    pub(crate) fn maps_on(&self, maps: &Vec<(DeviceId, u64, u64)>, device: DeviceId) -> (r: bool)
        ensures
            r == self@.maps_on(maps@, device),
    {
        let mut i: usize = 0;
        while i < maps.len()
            invariant
                i <= maps@.len(),
                forall|j: int| 0 <= j < i ==> !#[trigger] self@.maps_on_at(maps@, device, j),
            decreases maps@.len() - i,
        {
            let ghost _here = self@.maps_on_at(maps@, device, i as int);
            if maps[i].0 == device {
                return true;
            }
            i += 1;
        }
        false
    }

    /// Drop one exact map of a range, after waiting for all work.
    pub fn va_unmap_range(
        &mut self,
        id: AllocId,
        device: DeviceId,
        offset: u64,
        bytes: u64,
    ) -> (r: Result<(), SimError>)
        ensures
            final(self)@ == old(self)@.va_unmap_range(id, device, offset, bytes).0,
            r == old(self)@.va_unmap_range(id, device, offset, bytes).1,
    {
        self.fail_if_capturing("cannot capture alloc/free")?;
        self.synchronize()?;
        self.unmappable(id)?;
        let a = self.alloc_ref(id)?;
        if !self.has_map(&a.vmm_maps, device, offset, bytes) {
            return Err(invalid("no such map"));
        }
        self.drop_vmm_physical(id, device, offset, bytes)?;
        self.forget_map(id, device, offset, bytes)
    }

}

impl SimState {
    /// Whether the map at position `i` is that of a span.
    pub open spec fn maps_without_at(
        self,
        maps: Seq<(DeviceId, u64, u64)>,
        span: (DeviceId, u64, u64),
        i: int,
    ) -> bool {
        maps[i] == span
    }

    /// The maps without the first one of a span.
    #[verifier::opaque]
    pub open spec fn maps_without(
        self,
        maps: Seq<(DeviceId, u64, u64)>,
        span: (DeviceId, u64, u64),
    ) -> Seq<(DeviceId, u64, u64)> {
        match first_where(maps.len(), |i: int| self.maps_without_at(maps, span, i)) {
            Some(i) => maps.remove(i),
            None => maps,
        }
    }
}

impl SimState {
    /// Effect of [`Sim::forget_map`].
    #[verifier::opaque]
    pub open spec fn forget_map(
        self,
        id: AllocId,
        device: DeviceId,
        offset: u64,
        bytes: u64,
    ) -> (SimState, Result<(), SimError>) {
        let s = self;
        match s.alloc_ref(id) {
            Err(e) => (s, Err(e)),
            Ok(a) => {
                let maps = s.maps_without(a.vmm_maps, (device, offset, bytes));
                let devices = a.devices;
                let devices = if !s.maps_on(maps, device) {
                    let devices = without(devices, device);
                    devices
                } else {
                    devices
                };
                if maps.len() == 0 {
                    match s.alloc_ref(id) {
                        Err(e) => (s, Err(e)),
                        Ok(c) => {
                            let c = AllocView {
                                vmm_maps: maps,
                                devices: devices,
                                accessed_by: Set::empty(),
                                vmm_write_by: Set::empty(),
                                ..c
                            };
                            let s = SimState { allocs: s.allocs.insert(id, c), ..s };
                            let s = SimState { mc_vas: s.mc_vas.remove(id), ..s };
                            (s, Ok(()))
                        },
                    }
                } else {
                    match s.alloc_ref(id) {
                        Err(e) => (s, Err(e)),
                        Ok(b) => {
                            let b = AllocView { vmm_maps: maps, devices: devices, ..b };
                            let s = SimState { allocs: s.allocs.insert(id, b), ..s };
                            (s, Ok(()))
                        },
                    }
                }
            },
        }
    }

    /// Effect of [`Sim::va_set_access`].
    pub open spec fn va_set_access(
        self,
        id: AllocId,
        device: DeviceId,
    ) -> (SimState, Result<(), SimError>) {
        let s = self;
        s.va_set_access_inner(id, device, false)
    }

    /// Effect of [`Sim::va_set_access_write`].
    pub open spec fn va_set_access_write(
        self,
        id: AllocId,
        device: DeviceId,
    ) -> (SimState, Result<(), SimError>) {
        let s = self;
        s.va_set_access_inner(id, device, true)
    }

    /// Effect of [`Sim::va_set_access_inner`].
    #[verifier::opaque]
    pub open spec fn va_set_access_inner(
        self,
        id: AllocId,
        device: DeviceId,
        write: bool,
    ) -> (SimState, Result<(), SimError>) {
        let s = self;
        match s.fail_if_capturing("cannot capture alloc/free") {
            Err(e) => (s, Err(e)),
            Ok(_v) => match s.profile.gpu(device) {
                Err(e) => (s, Err(e)),
                Ok(_gpu) => match s.alloc_ref(id) {
                    Err(e) => (s, Err(e)),
                    Ok(a) => if !a.live || !a.vmm {
                        (s, Err(invalid("not a VA")))
                    } else {
                        match a.vmm_home() {
                            Some(owner) => match s.reachable_from(owner, device) {
                                Err(e) => (s, Err(e)),
                                Ok(_v) => match s.grant_va(id, device, write) {
                                    (s, Err(e)) => (s, Err(e)),
                                    (s, Ok(_v)) => {
                                        let s = s.tick(s.first_alloc_ns());
                                        (s, Ok(()))
                                    },
                                },
                            },
                            _ => (s, Err(invalid("not mapped"))),
                        }
                    },
                },
            },
        }
    }

    /// Effect of [`Sim::grant_va`].
    #[verifier::opaque]
    pub open spec fn grant_va(
        self,
        id: AllocId,
        device: DeviceId,
        write: bool,
    ) -> (SimState, Result<(), SimError>) {
        let s = self;
        if write {
            match s.alloc_ref(id) {
                Err(e) => (s, Err(e)),
                Ok(b) => {
                    let b = AllocView { accessed_by: b.accessed_by.insert(device), ..b };
                    let b = AllocView { vmm_write_by: b.vmm_write_by.insert(device), ..b };
                    let s = SimState { allocs: s.allocs.insert(id, b), ..s };
                    (s, Ok(()))
                },
            }
        } else {
            match s.alloc_ref(id) {
                Err(e) => (s, Err(e)),
                Ok(c) => {
                    let c = AllocView { accessed_by: c.accessed_by.insert(device), ..c };
                    let c = AllocView { vmm_write_by: c.vmm_write_by.remove(device), ..c };
                    let s = SimState { allocs: s.allocs.insert(id, c), ..s };
                    (s, Ok(()))
                },
            }
        }
    }

    /// Effect of [`Sim::va_unset_access`].
    pub open spec fn va_unset_access(
        self,
        id: AllocId,
        device: DeviceId,
    ) -> (SimState, Result<(), SimError>) {
        let s = self;
        match s.fail_if_capturing("cannot capture alloc/free") {
            Err(e) => (s, Err(e)),
            Ok(_v) => match s.profile.gpu(device) {
                Err(e) => (s, Err(e)),
                Ok(_gpu) => match s.alloc_ref(id) {
                    Err(e) => (s, Err(e)),
                    Ok(a) => if !a.live || !a.vmm {
                        (s, Err(invalid("not a VA")))
                    } else {
                        match s.alloc_ref(id) {
                            Err(e) => (s, Err(e)),
                            Ok(b) => {
                                let b = AllocView {
                                    accessed_by: b.accessed_by.remove(device),
                                    ..b
                                };
                                let b = AllocView {
                                    vmm_write_by: b.vmm_write_by.remove(device),
                                    ..b
                                };
                                let s = SimState { allocs: s.allocs.insert(id, b), ..s };
                                let s = s.tick(s.first_alloc_ns());
                                (s, Ok(()))
                            },
                        }
                    },
                },
            },
        }
    }

    /// Value of [`Sim::is_va_write_accessed_by`].
    pub open spec fn is_va_write_accessed_by(
        self,
        alloc: AllocId,
        device: DeviceId,
    ) -> Result<bool, SimError> {
        match self.alloc_ref(alloc) {
            Err(e) => Err(e),
            Ok(a) => Ok(a.live && a.vmm && a.vmm_write_by.contains(device)),
        }
    }

    /// Value of [`Sim::vmm_mapped_bytes`].
    pub open spec fn vmm_mapped_bytes(
        self,
        alloc: AllocId,
        device: DeviceId,
    ) -> Result<u64, SimError> {
        match self.alloc_ref(alloc) {
            Err(e) => Err(e),
            Ok(a) => if !a.live || !a.vmm {
                Err(invalid("not a VA"))
            } else {
                let sum = 0;
                self.vmm_mapped_bytes_from(device, a, sum, 0)
            },
        }
    }

    /// [`Sim::vmm_mapped_bytes`] from position `i` on.
    pub open spec fn vmm_mapped_bytes_from(
        self,
        device: DeviceId,
        a: AllocView,
        sum: u64,
        i: int,
    ) -> Result<u64, SimError>
        decreases a.vmm_maps.len() - i,
    {
        if 0 <= i < a.vmm_maps.len() {
            let sum = if a.vmm_maps[i].0 == device {
                let sum = sum.saturating_add(a.vmm_maps[i].2);
                sum
            } else {
                sum
            };
            self.vmm_mapped_bytes_from(device, a, sum, i + 1)
        } else {
            Ok(sum)
        }
    }

    /// Effect of [`Sim::va_free`].
    pub open spec fn va_free(self, id: AllocId) -> (SimState, Result<(), SimError>) {
        let s = self;
        match s.fail_if_capturing("cannot capture alloc/free") {
            Err(e) => (s, Err(e)),
            Ok(_v) => match s.alloc_ref(id) {
                Err(e) => (s, Err(e)),
                Ok(a) => if a.leases > 0 {
                    (s, Err(SimError::Leased { alloc: id }))
                } else if !a.live || !a.vmm {
                    (s, Err(SimError::UnknownAlloc { alloc: id }))
                } else if a.devices.len() > 0 {
                    (s, Err(invalid("VA still mapped")))
                } else {
                    let s = SimState { vmm_idle: without(s.vmm_idle, id), ..s };
                    match s.alloc_ref(id) {
                        Err(e) => (s, Err(e)),
                        Ok(a) => {
                            let s = SimState {
                                allocs: s.allocs.insert(id, AllocView { live: false, ..a }),
                                ..s
                            };
                            (s, Ok(()))
                        },
                    }
                },
            },
        }
    }

    /// What position `i` adds to [`Sim::idle_vas`].
    pub open spec fn idle_vas_at(self, i: int) -> Option<AllocId> {
        let id = self.vmm_idle[i];
        let keep = (match self.allocs.get(id) {
            Some(a) => a.live && a.vmm && a.devices.len() == 0,
            None => false,
        });
        if keep {
            Some(id)
        } else {
            None
        }
    }

    /// Value of [`Sim::idle_vas`].
    pub open spec fn idle_vas(self) -> Seq<AllocId> {
        picked(self.vmm_idle.len(), |i: int| self.idle_vas_at(i))
    }

    /// What position `i` gives [`Sim::va_of_size`].
    pub open spec fn va_of_size_at(self, ids: Seq<AllocId>, bytes: u64, i: int) -> Option<usize> {
        let fits = (match self.allocs.get(ids[i]) {
            Some(a) => a.bytes == bytes,
            None => false,
        });
        if fits {
            Some((i as usize))
        } else {
            None
        }
    }

    /// Value of [`Sim::va_of_size`].
    pub open spec fn va_of_size(self, ids: Seq<AllocId>, bytes: u64) -> Option<usize> {
        first_some(ids.len(), |i: int| self.va_of_size_at(ids, bytes, i))
    }

    /// What position `i` adds to [`Sim::ids_without`].
    pub open spec fn ids_without_at(self, ids: Seq<AllocId>, at: usize, i: int) -> Option<AllocId> {
        if (i as usize) != at {
            Some(ids[i])
        } else {
            None
        }
    }

    /// Value of [`Sim::ids_without`].
    pub open spec fn ids_without(self, ids: Seq<AllocId>, at: usize) -> Seq<AllocId> {
        picked(ids.len(), |i: int| self.ids_without_at(ids, at, i))
    }

    /// Effect of [`Sim::take_idle_va`].
    pub open spec fn take_idle_va(self, bytes: u64) -> (SimState, Option<AllocId>) {
        let s = self;
        let idle = s.idle_vas();
        let at = s.va_of_size(idle, bytes);
        match at {
            None => {
                let s = SimState { vmm_idle: idle, ..s };
                (s, None)
            },
            Some(i) => if i >= idle.len() {
                (s, None)
            } else {
                let id = idle[i as int];
                let s = SimState { vmm_idle: s.ids_without(idle, i), ..s };
                (s, Some(id))
            },
        }
    }

    /// Effect of [`Sim::park_idle_va`].
    pub open spec fn park_idle_va(self, id: AllocId) -> SimState {
        let s = self;
        let s = SimState { vmm_idle: with_new(s.vmm_idle, id), ..s };
        s
    }

    /// Effect of [`Sim::idle_or_new_va`].
    pub open spec fn idle_or_new_va(self, bytes: u64) -> (SimState, Result<AllocId, SimError>) {
        let s = self;
        let (s, idle) = s.take_idle_va(bytes);
        match idle {
            Some(id) => (s, Ok(id)),
            None => s.va_reserve(bytes),
        }
    }

    /// Effect of [`Sim::va_acquire`].
    pub open spec fn va_acquire(
        self,
        device: DeviceId,
        bytes: u64,
    ) -> (SimState, Result<AllocId, SimError>) {
        let s = self;
        match s.idle_or_new_va(bytes) {
            (s, Err(e)) => (s, Err(e)),
            (s, Ok(id)) => {
                let (s, v1) = s.va_map(id, device);
                match v1 {
                    Err(e) => {
                        let s = s.park_idle_va(id);
                        (s, Err(e))
                    },
                    Ok(_done) => (s, Ok(id)),
                }
            },
        }
    }

    /// Effect of [`Sim::va_acquire_paged`].
    pub open spec fn va_acquire_paged(
        self,
        device: DeviceId,
        bytes: u64,
        page: u64,
    ) -> (SimState, Result<AllocId, SimError>) {
        let s = self;
        let size = max_u64(page, 1);
        if size >= bytes {
            s.va_acquire(device, bytes)
        } else {
            match s.idle_or_new_va(bytes) {
                (s, Err(e)) => (s, Err(e)),
                (s, Ok(id)) => {
                    let (s, v1) = s.map_va_pages(id, device, size);
                    match v1 {
                        Err(e) => {
                            let s = s.park_idle_va(id);
                            (s, Err(e))
                        },
                        Ok(_done) => (s, Ok(id)),
                    }
                },
            }
        }
    }

    /// Effect of [`Sim::map_va_pages`].
    pub open spec fn map_va_pages(
        self,
        id: AllocId,
        device: DeviceId,
        page: u64,
    ) -> (SimState, Result<(), SimError>) {
        let s = self;
        match s.alloc_ref(id) {
            Err(e) => (s, Err(e)),
            Ok(a) => {
                let total = a.bytes;
                s.map_pages_from(id, device, page, 0, total)
            },
        }
    }

    /// Effect of [`Sim::map_pages_from`].
    pub open spec fn map_pages_from(
        self,
        id: AllocId,
        device: DeviceId,
        page: u64,
        off: u64,
        total: u64,
    ) -> (SimState, Result<(), SimError>)
        decreases total - off,
    {
        let s = self;
        if off >= total {
            (s, Ok(()))
        } else {
            let n = min_u64(max_u64(page, 1), total.saturating_sub(off));
            let (s, v1) = s.va_map_range(id, device, off, n);
            match v1 {
                Err(e) => {
                    let s = if off > 0 {
                        let s = s.va_unmap(id).0;
                        s
                    } else {
                        s
                    };
                    (s, Err(e))
                },
                Ok(_done) => s.map_pages_from(id, device, page, off.saturating_add(n), total),
            }
        }
    }

    /// Effect of [`Sim::va_release`].
    pub open spec fn va_release(self, id: AllocId) -> (SimState, Result<(), SimError>) {
        let s = self;
        if s.vmm_idle.contains(id) {
            (s, Ok(()))
        } else {
            match s.fail_if_capturing("cannot capture alloc/free") {
                Err(e) => (s, Err(e)),
                Ok(_v) => match s.alloc_ref(id) {
                    Err(e) => (s, Err(e)),
                    Ok(a) => if !a.live || !a.vmm {
                        (s, Err(invalid("not a VA")))
                    } else if a.devices.len() > 0 {
                        match s.va_unmap(id) {
                            (s, Err(e)) => (s, Err(e)),
                            (s, Ok(_v)) => {
                                let s = s.park_idle_va(id);
                                (s, Ok(()))
                            },
                        }
                    } else {
                        let s = s.park_idle_va(id);
                        (s, Ok(()))
                    },
                },
            }
        }
    }

    /// Value of [`Sim::vmm_idle_len`].
    pub open spec fn vmm_idle_len(self) -> usize {
        (self.vmm_idle.len() as usize)
    }

    /// Effect of [`Sim::multicast_create`].
    pub open spec fn multicast_create(
        self,
        bytes: u64,
        num_devices: u32,
    ) -> (SimState, Result<MulticastId, SimError>) {
        let s = self;
        if bytes == 0 {
            (s, Err(invalid("zero-byte alloc")))
        } else if num_devices < 2 {
            (s, Err(invalid("multicast needs NVLink")))
        } else {
            match s.check_mc_align(bytes) {
                Err(e) => (s, Err(e)),
                Ok(_v) => match s.fail_if_capturing("cannot capture alloc/free") {
                    Err(e) => (s, Err(e)),
                    Ok(_v) => {
                        let s = s.tick(s.first_alloc_ns());
                        let id = MulticastId(s.next.mc);
                        let s = SimState {
                            next: NextIds { mc: s.next.mc.saturating_add(1), ..s.next },
                            ..s
                        };
                        let s = SimState {
                            multicasts: s.multicasts.insert(
                                id,
                                MulticastView {
                                    bytes,
                                    n_dev: num_devices,
                                    devices: Seq::empty(),
                                    binds: Map::empty(),
                                    maps: 0,
                                },
                            ),
                            ..s
                        };
                        (s, Ok(id))
                    },
                },
            }
        }
    }

    /// Position `i` of [`Sim::nvlinked_from`].
    pub open spec fn nvlinked_from_at(
        self,
        a: DeviceId,
        devices: Seq<DeviceId>,
        first: usize,
        i: int,
    ) -> bool {
        if (i as usize) >= first {
            match self.profile.link(Some(a), Some(devices[i])) {
                Err(_e) => false,
                Ok(l) => if l.kind != LinkKind::Nvlink {
                    false
                } else {
                    true
                },
            }
        } else {
            true
        }
    }

    /// Value of [`Sim::nvlinked_from`].
    pub open spec fn nvlinked_from(
        self,
        a: DeviceId,
        devices: Seq<DeviceId>,
        first: usize,
    ) -> bool {
        forall|i: int| 0 <= i < devices.len() ==> #[trigger] self.nvlinked_from_at(
            a,
            devices,
            first,
            i,
        )
    }

    /// Check of position `i` in [`Sim::nvlink_clique`].
    pub open spec fn nvlink_clique_at(
        self,
        devices: Seq<DeviceId>,
        i: int,
    ) -> Result<(), SimError> {
        if !self.nvlinked_from(devices[i], devices, (i as usize).saturating_add(1)) {
            Err(invalid("multicast needs NVLink"))
        } else {
            Ok(())
        }
    }

    /// Value of [`Sim::nvlink_clique`].
    pub open spec fn nvlink_clique(self, devices: Seq<DeviceId>) -> Result<(), SimError> {
        if devices.len() < 2 {
            Err(invalid("multicast needs NVLink"))
        } else {
            each_ok(devices.len(), |i: int| self.nvlink_clique_at(devices, i))
        }
    }

    /// Effect of [`Sim::multicast_add_device`].
    pub open spec fn multicast_add_device(
        self,
        mc: MulticastId,
        device: DeviceId,
    ) -> (SimState, Result<(), SimError>) {
        let s = self;
        match s.fail_if_capturing("cannot capture alloc/free") {
            Err(e) => (s, Err(e)),
            Ok(_v) => match s.profile.gpu(device) {
                Err(e) => (s, Err(e)),
                Ok(_gpu) => match s.mc_ref(mc) {
                    Err(e) => (s, Err(e)),
                    Ok(obj) => if !vacant(obj.binds.dom()) || obj.maps > 0 {
                        (s, Err(invalid("add all devices first")))
                    } else if obj.devices.contains(device) {
                        (s, Err(invalid("already added")))
                    } else if clamp_u32((obj.devices.len() as usize)) >= obj.n_dev {
                        (s, Err(invalid("team full")))
                    } else {
                        let team = obj.devices;
                        let team = team.push(device);
                        let full = team.len() <= 0xffff_ffff && clamp_u32(
                            (team.len() as usize),
                        ) == obj.n_dev;
                        match s.mc_ref(mc) {
                            Err(e) => (s, Err(e)),
                            Ok(m) => {
                                let m = MulticastView { devices: m.devices.push(device), ..m };
                                let s = SimState { multicasts: s.multicasts.insert(mc, m), ..s };
                                let s = s.tick(1);
                                if full {
                                    (s, s.nvlink_clique(team))
                                } else {
                                    (s, Ok(()))
                                }
                            },
                        }
                    },
                },
            },
        }
    }

    /// Value of [`Sim::bindable`].
    pub open spec fn bindable(
        self,
        mc: MulticastId,
        device: DeviceId,
        bytes: u64,
    ) -> Result<(), SimError> {
        match self.mc_ref(mc) {
            Err(e) => Err(e),
            Ok(obj) => {
                let added = if obj.devices.len() > 0xffff_ffff {
                    0
                } else {
                    clamp_u32((obj.devices.len() as usize))
                };
                if added != obj.n_dev {
                    Err(invalid("add all devices first"))
                } else if !obj.devices.contains(device) {
                    Err(invalid("device not in team"))
                } else if obj.binds.contains_key(device) {
                    Err(invalid("already bound"))
                } else if bytes != obj.bytes {
                    Err(invalid("handle size mismatch"))
                } else {
                    self.nvlink_clique(obj.devices)
                }
            },
        }
    }

    /// Effect of [`Sim::multicast_bind_mem`].
    pub open spec fn multicast_bind_mem(
        self,
        mc: MulticastId,
        device: DeviceId,
        handle: MemHandleId,
    ) -> (SimState, Result<(), SimError>) {
        let s = self;
        match s.fail_if_capturing("cannot capture alloc/free") {
            Err(e) => (s, Err(e)),
            Ok(_v) => match s.handle_ref(handle) {
                Err(e) => (s, Err(e)),
                Ok(h) => if h.refs == 0 {
                    (s, Err(invalid("handle released")))
                } else if h.device != device {
                    (s, Err(invalid("handle device mismatch")))
                } else {
                    let bytes = h.bytes;
                    match s.bindable(mc, device, bytes) {
                        Err(e) => (s, Err(e)),
                        Ok(_v) => match s.mc_ref(mc) {
                            Err(e) => (s, Err(e)),
                            Ok(m) => {
                                let m = MulticastView {
                                    binds: m.binds.insert(device, handle),
                                    ..m
                                };
                                let s = SimState { multicasts: s.multicasts.insert(mc, m), ..s };
                                let s = s.tick(1);
                                (s, Ok(()))
                            },
                        },
                    }
                },
            },
        }
    }

    /// Value of [`Sim::mc_mappable`].
    pub open spec fn mc_mappable(self, mc: MulticastId, device: DeviceId) -> Result<u64, SimError> {
        match self.mc_ref(mc) {
            Err(e) => Err(e),
            Ok(obj) => {
                let bound = if count(obj.binds.dom()) > 0xffff_ffff {
                    0
                } else {
                    clamp_u32(count(obj.binds.dom()))
                };
                if bound != obj.n_dev {
                    Err(invalid("bind all devices first"))
                } else if !obj.devices.contains(device) {
                    Err(invalid("device not in team"))
                } else {
                    match self.nvlink_clique(obj.devices) {
                        Err(e) => Err(e),
                        Ok(_v) => Ok(obj.bytes),
                    }
                }
            },
        }
    }

    /// Effect of [`Sim::va_map_multicast`].
    pub open spec fn va_map_multicast(
        self,
        id: AllocId,
        device: DeviceId,
        offset: u64,
        mc: MulticastId,
    ) -> (SimState, Result<(), SimError>) {
        let s = self;
        match s.fail_if_capturing("cannot capture alloc/free") {
            Err(e) => (s, Err(e)),
            Ok(_v) => match s.mc_mappable(mc, device) {
                Err(e) => (s, Err(e)),
                Ok(bytes) => match s.span_mappable(id, device, offset, bytes) {
                    Err(e) => (s, Err(e)),
                    Ok(_v) => if s.mc_vas.contains_key(id) {
                        (s, Err(invalid("already mapped")))
                    } else {
                        match s.pay_alloc(device) {
                            (s, Err(e)) => (s, Err(e)),
                            (s, Ok(_v)) => match s.add_map(id, device, offset, bytes) {
                                (s, Err(e)) => (s, Err(e)),
                                (s, Ok(_v)) => match s.mc_ref(mc) {
                                    Err(e) => (s, Err(e)),
                                    Ok(m) => {
                                        let m = MulticastView {
                                            maps: m.maps.saturating_add(1),
                                            ..m
                                        };
                                        let s = SimState {
                                            multicasts: s.multicasts.insert(mc, m),
                                            ..s
                                        };
                                        let s = SimState { mc_vas: s.mc_vas.insert(id, mc), ..s };
                                        let s = SimState {
                                            mc_at: s.mc_at.insert(Piece(id, device, offset, bytes)),
                                            ..s
                                        };
                                        (s, Ok(()))
                                    },
                                },
                            },
                        }
                    },
                },
            },
        }
    }

    /// Value of [`Sim::is_multicast_va`].
    pub open spec fn is_multicast_va(self, id: AllocId) -> bool {
        self.mc_vas.contains_key(id)
    }

    /// Value of [`Sim::multicast_binds`].
    pub open spec fn multicast_binds(self, mc: MulticastId) -> Result<u32, SimError> {
        match self.mc_ref(mc) {
            Err(e) => Err(e),
            Ok(obj) => Ok(clamp_u32(count(obj.binds.dom()))),
        }
    }

    /// Value of [`Sim::multicast_team`].
    pub open spec fn multicast_team(
        self,
        src: DeviceId,
        dests: Seq<DeviceId>,
    ) -> Result<Seq<DeviceId>, SimError> {
        if dests.len() == 0 {
            Err(invalid("multicast needs NVLink"))
        } else {
            let team = seq![src];
            self.multicast_team_from(src, dests, team, 0)
        }
    }

    /// [`Sim::multicast_team`] from position `i` on.
    pub open spec fn multicast_team_from(
        self,
        src: DeviceId,
        dests: Seq<DeviceId>,
        team: Seq<DeviceId>,
        i: int,
    ) -> Result<Seq<DeviceId>, SimError>
        decreases dests.len() - i,
    {
        if 0 <= i < dests.len() {
            if dests[i] == src {
                Err(invalid("multicast src is dest"))
            } else {
                let team = with_new(team, dests[i]);
                self.multicast_team_from(src, dests, team, i + 1)
            }
        } else if team.len() < 2 {
            Err(invalid("multicast needs NVLink"))
        } else {
            Ok(team)
        }
    }

    /// Check of position `i` in [`Sim::require_whole_maps`].
    pub open spec fn require_whole_maps_at(
        self,
        id: AllocId,
        team: Seq<DeviceId>,
        a: AllocView,
        i: int,
    ) -> Result<(), SimError> {
        if !maps_cover(a.vmm_maps, team[i], 0, a.bytes) {
            Err(SimError::NotResident { alloc: id, device: team[i] })
        } else if self.map_at(a.vmm_maps, team[i], 0) != Some(a.bytes) {
            Err(invalid("multicast needs whole-VA maps"))
        } else {
            Ok(())
        }
    }

    /// Value of [`Sim::require_whole_maps`].
    pub open spec fn require_whole_maps(
        self,
        id: AllocId,
        team: Seq<DeviceId>,
    ) -> Result<(), SimError> {
        match self.alloc_ref(id) {
            Err(e) => Err(e),
            Ok(a) => if !a.live || !a.vmm {
                Err(invalid("not a VA"))
            } else {
                each_ok(team.len(), |i: int| self.require_whole_maps_at(id, team, a, i))
            },
        }
    }

    /// Effect of [`Sim::handle_for_bind`].
    pub open spec fn handle_for_bind(
        self,
        id: AllocId,
        device: DeviceId,
    ) -> (SimState, Result<MemHandleId, SimError>) {
        let s = self;
        match s.alloc_ref(id) {
            Err(e) => (s, Err(e)),
            Ok(a) => {
                let bytes = a.bytes;
                match s.vmm_handle_at.get(Piece(id, device, 0, bytes)) {
                    Some(h) => (s, Ok(h)),
                    None => s.va_retain_handle(id, device, 0),
                }
            },
        }
    }

    /// Effect of [`Sim::add_team`].
    pub open spec fn add_team(
        self,
        mc: MulticastId,
        team: Seq<DeviceId>,
    ) -> (SimState, Result<(), SimError>) {
        let s = self;
        s.add_team_from(mc, team, 0)
    }

    /// [`Sim::add_team`] from position `i` on.
    pub open spec fn add_team_from(
        self,
        mc: MulticastId,
        team: Seq<DeviceId>,
        i: int,
    ) -> (SimState, Result<(), SimError>)
        decreases team.len() - i,
    {
        let s = self;
        if 0 <= i < team.len() {
            match s.multicast_add_device(mc, team[i]) {
                (s, Err(e)) => (s, Err(e)),
                (s, Ok(_v)) => s.add_team_from(mc, team, i + 1),
            }
        } else {
            (s, Ok(()))
        }
    }

    /// Effect of [`Sim::bind_team`].
    pub open spec fn bind_team(
        self,
        mc: MulticastId,
        id: AllocId,
        team: Seq<DeviceId>,
    ) -> (SimState, Result<(), SimError>) {
        let s = self;
        s.bind_team_from(mc, id, team, 0)
    }

    /// [`Sim::bind_team`] from position `i` on.
    pub open spec fn bind_team_from(
        self,
        mc: MulticastId,
        id: AllocId,
        team: Seq<DeviceId>,
        i: int,
    ) -> (SimState, Result<(), SimError>)
        decreases team.len() - i,
    {
        let s = self;
        if 0 <= i < team.len() {
            match s.handle_for_bind(id, team[i]) {
                (s, Err(e)) => (s, Err(e)),
                (s, Ok(h)) => match s.multicast_bind_mem(mc, team[i], h) {
                    (s, Err(e)) => (s, Err(e)),
                    (s, Ok(_v)) => s.bind_team_from(mc, id, team, i + 1),
                },
            }
        } else {
            (s, Ok(()))
        }
    }

    /// Effect of [`Sim::multicast_store`].
    pub open spec fn multicast_store(
        self,
        src: DeviceId,
        id: AllocId,
        dests: Seq<DeviceId>,
        stream: StreamId,
    ) -> (SimState, Result<OpId, SimError>) {
        let s = self;
        match s.fail_if_capturing("cannot capture alloc/free") {
            Err(e) => (s, Err(e)),
            Ok(_v) => match s.alloc_ref(id) {
                Err(e) => (s, Err(e)),
                Ok(a) => {
                    let bytes = a.bytes;
                    match s.multicast_team(src, dests) {
                        Err(e) => (s, Err(e)),
                        Ok(team) => match s.nvlink_clique(team) {
                            Err(e) => (s, Err(e)),
                            Ok(_v) => match s.require_whole_maps(id, team) {
                                Err(e) => (s, Err(e)),
                                Ok(_v) => {
                                    let n = if team.len() > 0xffff_ffff {
                                        0
                                    } else {
                                        clamp_u32((team.len() as usize))
                                    };
                                    match s.multicast_create(bytes, n) {
                                        (s, Err(e)) => (s, Err(e)),
                                        (s, Ok(mc)) => match s.add_team(mc, team) {
                                            (s, Err(e)) => (s, Err(e)),
                                            (s, Ok(_v)) => match s.bind_team(mc, id, team) {
                                                (s, Err(e)) => (s, Err(e)),
                                                (s, Ok(_v)) => match s.va_reserve(bytes) {
                                                    (s, Err(e)) => (s, Err(e)),
                                                    (s, Ok(va)) => match s.va_map_multicast(va, src, 0, mc) {
                                                        (s, Err(e)) => (s, Err(e)),
                                                        (s, Ok(_v)) => {
                                                            let reads = seq![id];
                                                            let writes = seq![va];
                                                            s.kernel(
                                                                src,
                                                                KernelKind::other(0, bytes),
                                                                reads,
                                                                writes,
                                                                stream,
                                                            )
                                                        },
                                                    },
                                                },
                                            },
                                        },
                                    }
                                },
                            },
                        },
                    }
                },
            },
        }
    }
}

impl Sim {
    pub(crate) fn maps_without(
        &self,
        maps: &Vec<(DeviceId, u64, u64)>,
        span: (DeviceId, u64, u64),
    ) -> (r: Vec<(DeviceId, u64, u64)>)
        ensures
            r@ == self@.maps_without(maps@, span),
    {
        reveal(SimState::maps_without);
        let mut i: usize = 0;
        while i < maps.len()
            invariant
                i <= maps@.len(),
                forall|j: int| 0 <= j < i ==> !#[trigger] self@.maps_without_at(maps@, span, j),
            decreases maps@.len() - i,
        {
            if maps[i].0 == span.0 && maps[i].1 == span.1 && maps[i].2 == span.2 {
                proof {
                    reveal(SimState::maps_without);
                    lemma_first_at(
                        maps@.len(),
                        |j: int| self@.maps_without_at(maps@, span, j),
                        i as int,
                    );
                }
                let mut out: Vec<(DeviceId, u64, u64)> = copy_vec(maps);
                let _gone = out.remove(i);
                assert(out@ == maps@.remove(i as int));
                return out;
            }
            i += 1;
        }
        copy_vec(maps)
    }

    #[verifier::rlimit(40)]
    pub(crate) fn forget_map(
        &mut self,
        id: AllocId,
        device: DeviceId,
        offset: u64,
        bytes: u64,
    ) -> (r: Result<(), SimError>)
        ensures
            final(self)@ == old(self)@.forget_map(id, device, offset, bytes).0,
            r == old(self)@.forget_map(id, device, offset, bytes).1,
    {
        reveal(SimState::forget_map);
        let a = self.alloc_ref(id)?;
        let maps: Vec<(DeviceId, u64, u64)> = self.maps_without(
            &a.vmm_maps,
            (device, offset, bytes),
        );
        let mut devices: Vec<DeviceId> = copy_vec(&a.devices);
        if !self.maps_on(&maps, device) {
            drop_key(&mut devices, device);
        }
        if maps.len() == 0 {
            let c = self.alloc_mut(id)?;
            c.vmm_maps = maps;
            c.devices = devices;
            c.accessed_by = KeySet::new();
            c.vmm_write_by = KeySet::new();
            let _gone = self.mc_vas.remove(id);
            return Ok(());
        }
        let b = self.alloc_mut(id)?;
        b.vmm_maps = maps;
        b.devices = devices;
        Ok(())
    }

    /// Let kernels of a device read a mapped range.
    pub fn va_set_access(&mut self, id: AllocId, device: DeviceId) -> (r: Result<(), SimError>)
        ensures
            final(self)@ == old(self)@.va_set_access(id, device).0,
            r == old(self)@.va_set_access(id, device).1,
    {
        self.va_set_access_inner(id, device, false)
    }

    /// Let kernels of a device read and write a mapped range.
    pub fn va_set_access_write(
        &mut self,
        id: AllocId,
        device: DeviceId,
    ) -> (r: Result<(), SimError>)
        ensures
            final(self)@ == old(self)@.va_set_access_write(id, device).0,
            r == old(self)@.va_set_access_write(id, device).1,
    {
        self.va_set_access_inner(id, device, true)
    }

    pub(crate) fn va_set_access_inner(
        &mut self,
        id: AllocId,
        device: DeviceId,
        write: bool,
    ) -> (r: Result<(), SimError>)
        ensures
            final(self)@ == old(self)@.va_set_access_inner(id, device, write).0,
            r == old(self)@.va_set_access_inner(id, device, write).1,
    {
        reveal(SimState::va_set_access_inner);
        self.fail_if_capturing("cannot capture alloc/free")?;
        let _gpu = self.profile.gpu(device)?;
        let a = self.alloc_ref(id)?;
        if !a.live || !a.vmm {
            return Err(invalid("not a VA"));
        }
        let Some(owner) = a.vmm_home() else {
            return Err(invalid("not mapped"));
        };
        self.reachable_from(owner, device)?;
        self.grant_va(id, device, write)?;
        self.tick(self.first_alloc_ns());
        Ok(())
    }

    pub(crate) fn grant_va(
        &mut self,
        id: AllocId,
        device: DeviceId,
        write: bool,
    ) -> (r: Result<(), SimError>)
        ensures
            final(self)@ == old(self)@.grant_va(id, device, write).0,
            r == old(self)@.grant_va(id, device, write).1,
    {
        reveal(SimState::grant_va);
        if write {
            let b = self.alloc_mut(id)?;
            let _new = b.accessed_by.insert(device);
            let _w = b.vmm_write_by.insert(device);
            return Ok(());
        }
        let c = self.alloc_mut(id)?;
        let _new = c.accessed_by.insert(device);
        let _was = c.vmm_write_by.remove(device);
        Ok(())
    }

    /// Take access to a range back.
    pub fn va_unset_access(&mut self, id: AllocId, device: DeviceId) -> (r: Result<(), SimError>)
        ensures
            final(self)@ == old(self)@.va_unset_access(id, device).0,
            r == old(self)@.va_unset_access(id, device).1,
    {
        self.fail_if_capturing("cannot capture alloc/free")?;
        let _gpu = self.profile.gpu(device)?;
        let a = self.alloc_ref(id)?;
        if !a.live || !a.vmm {
            return Err(invalid("not a VA"));
        }
        let b = self.alloc_mut(id)?;
        let _was = b.accessed_by.remove(device);
        let _w = b.vmm_write_by.remove(device);
        self.tick(self.first_alloc_ns());
        Ok(())
    }

    /// Whether a device may write a range without a map of its own.
    pub fn is_va_write_accessed_by(
        &self,
        alloc: AllocId,
        device: DeviceId,
    ) -> (r: Result<bool, SimError>)
        ensures
            r == self@.is_va_write_accessed_by(alloc, device),
    {
        let a = self.alloc_ref(alloc)?;
        Ok(a.live && a.vmm && a.vmm_write_by.contains(device))
    }

    /// Bytes of a range that are mapped to a device.
    pub fn vmm_mapped_bytes(&self, alloc: AllocId, device: DeviceId) -> (r: Result<u64, SimError>)
        ensures
            r == self@.vmm_mapped_bytes(alloc, device),
    {
        let a: &Alloc = self.alloc_ref(alloc)?;
        if !a.live || !a.vmm {
            return Err(invalid("not a VA"));
        }
        let mut sum: u64 = 0;
        let mut i: usize = 0;
        while i < a.vmm_maps.len()
            invariant
                i <= a@.vmm_maps.len(),
                self@.vmm_mapped_bytes(alloc, device) == self@.vmm_mapped_bytes_from(
                    device,
                    a@,
                    sum,
                    i as int,
                ),
            decreases a@.vmm_maps.len() - i,
        {
            if a.vmm_maps[i].0 == device {
                sum = sum.saturating_add(a.vmm_maps[i].2);
            }
            i += 1;
        }
        Ok(sum)
    }

    /// Give a range without maps back.
    pub fn va_free(&mut self, id: AllocId) -> (r: Result<(), SimError>)
        ensures
            final(self)@ == old(self)@.va_free(id).0,
            r == old(self)@.va_free(id).1,
    {
        self.fail_if_capturing("cannot capture alloc/free")?;
        let a = self.alloc_ref(id)?;
        if a.leases > 0 {
            return Err(SimError::Leased { alloc: id });
        }
        if !a.live || !a.vmm {
            return Err(SimError::UnknownAlloc { alloc: id });
        }
        if a.devices.len() > 0 {
            return Err(invalid("VA still mapped"));
        }
        drop_key(&mut self.vmm_idle, id);
        self.alloc_mut(id)?.live = false;
        Ok(())
    }

    /// Parked ranges that are still free of maps.
    pub(crate) fn idle_vas(&self) -> (r: Vec<AllocId>)
        ensures
            r@ == self@.idle_vas(),
    {
        let mut out: Vec<AllocId> = Vec::new();
        let mut i: usize = 0;
        while i < self.vmm_idle.len()
            invariant
                i <= self@.vmm_idle.len(),
                out@ == picked(i as nat, |j: int| self@.idle_vas_at(j)),
            decreases self@.vmm_idle.len() - i,
        {
            let id: AllocId = self.vmm_idle[i];
            let keep: bool = match self.allocs.get(id) {
                Some(a) => a.live && a.vmm && a.devices.len() == 0,
                None => false,
            };
            if keep {
                out.push(id);
            }
            i += 1;
        }
        out
    }

    /// First of the ranges with a length.
    #[verifier::rlimit(40)]
    pub(crate) fn va_of_size(&self, ids: &Vec<AllocId>, bytes: u64) -> (r: Option<usize>)
        ensures
            r == self@.va_of_size(ids@, bytes),
    {
        let mut i: usize = 0;
        while i < ids.len()
            invariant
                i <= ids@.len(),
                self@.va_of_size(ids@, bytes) == first_some(
                    ids@.len(),
                    |j: int| self@.va_of_size_at(ids@, bytes, j),
                ),
                forall|j: int| 0 <= j < i ==> #[trigger] self@.va_of_size_at(ids@, bytes, j) is None,
            decreases ids@.len() - i,
        {
            proof {
                lemma_first_some(
                    ids@.len(),
                    |j: int| self@.va_of_size_at(ids@, bytes, j),
                    i as int,
                );
            }
            let fits: bool = match self.allocs.get(ids[i]) {
                Some(a) => a.bytes == bytes,
                None => false,
            };
            if fits {
                return Some(i);
            }
            i += 1;
        }
        proof {
            lemma_first_some(ids@.len(), |j: int| self@.va_of_size_at(ids@, bytes, j), i as int);
        }
        None
    }

    /// The ranges without the one at `at`.
    pub(crate) fn ids_without(&self, ids: &Vec<AllocId>, at: usize) -> (r: Vec<AllocId>)
        ensures
            r@ == self@.ids_without(ids@, at),
    {
        let mut out: Vec<AllocId> = Vec::new();
        let mut i: usize = 0;
        while i < ids.len()
            invariant
                i <= ids@.len(),
                out@ == picked(i as nat, |j: int| self@.ids_without_at(ids@, at, j)),
            decreases ids@.len() - i,
        {
            if i != at {
                out.push(ids[i]);
            }
            i += 1;
        }
        out
    }

    /// A parked range of a length.
    pub(crate) fn take_idle_va(&mut self, bytes: u64) -> (r: Option<AllocId>)
        ensures
            final(self)@ == old(self)@.take_idle_va(bytes).0,
            r == old(self)@.take_idle_va(bytes).1,
    {
        let idle: Vec<AllocId> = self.idle_vas();
        let at: Option<usize> = self.va_of_size(&idle, bytes);
        match at {
            None => {
                self.vmm_idle = idle;
                None
            },
            Some(i) => {
                if i >= idle.len() {
                    return None;
                }
                let id: AllocId = idle[i];
                self.vmm_idle = self.ids_without(&idle, i);
                Some(id)
            },
        }
    }

    /// Keep a range for reuse.
    pub(crate) fn park_idle_va(&mut self, id: AllocId)
        ensures
            final(self)@ == old(self)@.park_idle_va(id),
    {
        push_new(&mut self.vmm_idle, id);
    }

    /// A parked or new range of a length.
    pub(crate) fn idle_or_new_va(&mut self, bytes: u64) -> (r: Result<AllocId, SimError>)
        ensures
            final(self)@ == old(self)@.idle_or_new_va(bytes).0,
            r == old(self)@.idle_or_new_va(bytes).1,
    {
        let idle: Option<AllocId> = self.take_idle_va(bytes);
        match idle {
            Some(id) => Ok(id),
            None => self.va_reserve(bytes),
        }
    }

    /// A range of a length, mapped to a device. A parked range is taken first.
    pub fn va_acquire(&mut self, device: DeviceId, bytes: u64) -> (r: Result<AllocId, SimError>)
        ensures
            final(self)@ == old(self)@.va_acquire(device, bytes).0,
            r == old(self)@.va_acquire(device, bytes).1,
    {
        let id = self.idle_or_new_va(bytes)?;
        match self.va_map(id, device) {
            Err(e) => {
                self.park_idle_va(id);
                Err(e)
            },
            Ok(_done) => Ok(id),
        }
    }

    /// A range of a length, mapped to a device page by page.
    pub fn va_acquire_paged(
        &mut self,
        device: DeviceId,
        bytes: u64,
        page: u64,
    ) -> (r: Result<AllocId, SimError>)
        ensures
            final(self)@ == old(self)@.va_acquire_paged(device, bytes, page).0,
            r == old(self)@.va_acquire_paged(device, bytes, page).1,
    {
        let size: u64 = max_u64(page, 1);
        if size >= bytes {
            return self.va_acquire(device, bytes);
        }
        let id = self.idle_or_new_va(bytes)?;
        match self.map_va_pages(id, device, size) {
            Err(e) => {
                self.park_idle_va(id);
                Err(e)
            },
            Ok(_done) => Ok(id),
        }
    }

    pub(crate) fn map_va_pages(
        &mut self,
        id: AllocId,
        device: DeviceId,
        page: u64,
    ) -> (r: Result<(), SimError>)
        ensures
            final(self)@ == old(self)@.map_va_pages(id, device, page).0,
            r == old(self)@.map_va_pages(id, device, page).1,
    {
        let a = self.alloc_ref(id)?;
        let total: u64 = a.bytes;
        self.map_pages_from(id, device, page, 0, total)
    }

    /// Map the pages from an offset on. When one is refused, the earlier ones are dropped.
    pub(crate) fn map_pages_from(
        &mut self,
        id: AllocId,
        device: DeviceId,
        page: u64,
        off: u64,
        total: u64,
    ) -> (r: Result<(), SimError>)
        ensures
            final(self)@ == old(self)@.map_pages_from(id, device, page, off, total).0,
            r == old(self)@.map_pages_from(id, device, page, off, total).1,
        decreases total - off,
    {
        if off >= total {
            return Ok(());
        }
        let n: u64 = min_u64(max_u64(page, 1), total.saturating_sub(off));
        match self.va_map_range(id, device, off, n) {
            Err(e) => {
                if off > 0 {
                    let _undone = self.va_unmap(id);
                }
                Err(e)
            },
            Ok(_done) => self.map_pages_from(id, device, page, off.saturating_add(n), total),
        }
    }

    /// Drop the maps of a range and park it.
    pub fn va_release(&mut self, id: AllocId) -> (r: Result<(), SimError>)
        ensures
            final(self)@ == old(self)@.va_release(id).0,
            r == old(self)@.va_release(id).1,
    {
        if has_key(&self.vmm_idle, id) {
            return Ok(());
        }
        self.fail_if_capturing("cannot capture alloc/free")?;
        let a = self.alloc_ref(id)?;
        if !a.live || !a.vmm {
            return Err(invalid("not a VA"));
        }
        if a.devices.len() > 0 {
            self.va_unmap(id)?;
        }
        self.park_idle_va(id);
        Ok(())
    }

    /// Number of parked ranges.
    pub fn vmm_idle_len(&self) -> (r: usize)
        ensures
            r == self@.vmm_idle_len(),
    {
        self.vmm_idle.len()
    }

    /// Multicast object for a team of a given size.
    pub fn multicast_create(
        &mut self,
        bytes: u64,
        num_devices: u32,
    ) -> (r: Result<MulticastId, SimError>)
        ensures
            final(self)@ == old(self)@.multicast_create(bytes, num_devices).0,
            r == old(self)@.multicast_create(bytes, num_devices).1,
    {
        if bytes == 0 {
            return Err(invalid("zero-byte alloc"));
        }
        if num_devices < 2 {
            return Err(invalid("multicast needs NVLink"));
        }
        self.check_mc_align(bytes)?;
        self.fail_if_capturing("cannot capture alloc/free")?;
        self.tick(self.first_alloc_ns());
        let id = MulticastId(self.next.mc);
        self.next.mc = self.next.mc.saturating_add(1);
        self.multicasts.insert(
            id,
            Multicast {
                bytes,
                n_dev: num_devices,
                devices: Vec::new(),
                binds: Table::new(),
                maps: 0,
            },
        );
        Ok(id)
    }

    /// An NVLink joins a device to each of the others from an index on.
    pub(crate) fn nvlinked_from(
        &self,
        a: DeviceId,
        devices: &Vec<DeviceId>,
        first: usize,
    ) -> (r: bool)
        ensures
            r == self@.nvlinked_from(a, devices@, first),
    {
        let mut i: usize = 0;
        while i < devices.len()
            invariant
                i <= devices@.len(),
                forall|j: int| 0 <= j < i ==> #[trigger] self@.nvlinked_from_at(
                    a,
                    devices@,
                    first,
                    j,
                ),
            decreases devices@.len() - i,
        {
            let ghost _here = self@.nvlinked_from_at(a, devices@, first, i as int);
            if i >= first {
                match self.profile.link(Some(a), Some(devices[i])) {
                    Err(_e) => {
                        return false;
                    },
                    Ok(l) => {
                        if l.kind != LinkKind::Nvlink {
                            return false;
                        }
                    },
                }
            }
            i += 1;
        }
        true
    }

    /// An NVLink joins every two devices of a team.
    pub(crate) fn nvlink_clique(&self, devices: &Vec<DeviceId>) -> (r: Result<(), SimError>)
        ensures
            r == self@.nvlink_clique(devices@),
    {
        if devices.len() < 2 {
            return Err(invalid("multicast needs NVLink"));
        }
        let mut i: usize = 0;
        while i < devices.len()
            invariant
                i <= devices@.len(),
                self@.nvlink_clique(devices@) == each_ok(
                    devices@.len(),
                    |j: int| self@.nvlink_clique_at(devices@, j),
                ),
                forall|j: int| 0 <= j < i ==> #[trigger] self@.nvlink_clique_at(devices@, j) is Ok,
            decreases devices@.len() - i,
        {
            proof {
                lemma_each_ok(
                    devices@.len(),
                    |j: int| self@.nvlink_clique_at(devices@, j),
                    i as int,
                );
            }
            if !self.nvlinked_from(devices[i], devices, i.saturating_add(1)) {
                return Err(invalid("multicast needs NVLink"));
            }
            i += 1;
        }
        proof {
            lemma_each_ok(devices@.len(), |j: int| self@.nvlink_clique_at(devices@, j), i as int);
        }
        Ok(())
    }

    /// Add a device to a team. The full team is joined by NVLinks.
    pub fn multicast_add_device(
        &mut self,
        mc: MulticastId,
        device: DeviceId,
    ) -> (r: Result<(), SimError>)
        ensures
            final(self)@ == old(self)@.multicast_add_device(mc, device).0,
            r == old(self)@.multicast_add_device(mc, device).1,
    {
        self.fail_if_capturing("cannot capture alloc/free")?;
        let _gpu = self.profile.gpu(device)?;
        let obj = self.mc_ref(mc)?;
        if !obj.binds.is_vacant() || obj.maps > 0 {
            return Err(invalid("add all devices first"));
        }
        if has_key(&obj.devices, device) {
            return Err(invalid("already added"));
        }
        if clamp_u32(obj.devices.len()) >= obj.n_dev {
            return Err(invalid("team full"));
        }
        let mut team: Vec<DeviceId> = copy_vec(&obj.devices);
        team.push(device);
        let full: bool = team.len() <= 0xffff_ffff && clamp_u32(team.len()) == obj.n_dev;
        let m = self.mc_mut(mc)?;
        m.devices.push(device);
        self.tick(1);
        if full {
            return self.nvlink_clique(&team);
        }
        Ok(())
    }

    /// The handle may be bound to the object on a device.
    pub(crate) fn bindable(
        &self,
        mc: MulticastId,
        device: DeviceId,
        bytes: u64,
    ) -> (r: Result<(), SimError>)
        ensures
            r == self@.bindable(mc, device, bytes),
    {
        let obj = self.mc_ref(mc)?;
        let added: u32 = if obj.devices.len() > 0xffff_ffff {
            0
        } else {
            clamp_u32(obj.devices.len())
        };
        if added != obj.n_dev {
            return Err(invalid("add all devices first"));
        }
        if !has_key(&obj.devices, device) {
            return Err(invalid("device not in team"));
        }
        if obj.binds.contains_key(device) {
            return Err(invalid("already bound"));
        }
        if bytes != obj.bytes {
            return Err(invalid("handle size mismatch"));
        }
        self.nvlink_clique(&obj.devices)
    }

    /// Bind physical memory of a team device.
    pub fn multicast_bind_mem(
        &mut self,
        mc: MulticastId,
        device: DeviceId,
        handle: MemHandleId,
    ) -> (r: Result<(), SimError>)
        ensures
            final(self)@ == old(self)@.multicast_bind_mem(mc, device, handle).0,
            r == old(self)@.multicast_bind_mem(mc, device, handle).1,
    {
        self.fail_if_capturing("cannot capture alloc/free")?;
        let h = self.handle_ref(handle)?;
        if h.refs == 0 {
            return Err(invalid("handle released"));
        }
        if h.device != device {
            return Err(invalid("handle device mismatch"));
        }
        let bytes: u64 = h.bytes;
        self.bindable(mc, device, bytes)?;
        let m = self.mc_mut(mc)?;
        m.binds.insert(device, handle);
        self.tick(1);
        Ok(())
    }

    /// The object may be mapped for a device; gives its length.
    pub(crate) fn mc_mappable(
        &self,
        mc: MulticastId,
        device: DeviceId,
    ) -> (r: Result<u64, SimError>)
        ensures
            r == self@.mc_mappable(mc, device),
    {
        let obj = self.mc_ref(mc)?;
        let bound: u32 = if obj.binds.size() > 0xffff_ffff {
            0
        } else {
            clamp_u32(obj.binds.size())
        };
        if bound != obj.n_dev {
            return Err(invalid("bind all devices first"));
        }
        if !has_key(&obj.devices, device) {
            return Err(invalid("device not in team"));
        }
        self.nvlink_clique(&obj.devices)?;
        Ok(obj.bytes)
    }

    /// Map a multicast object into a range.
    pub fn va_map_multicast(
        &mut self,
        id: AllocId,
        device: DeviceId,
        offset: u64,
        mc: MulticastId,
    ) -> (r: Result<(), SimError>)
        ensures
            final(self)@ == old(self)@.va_map_multicast(id, device, offset, mc).0,
            r == old(self)@.va_map_multicast(id, device, offset, mc).1,
    {
        self.fail_if_capturing("cannot capture alloc/free")?;
        let bytes: u64 = self.mc_mappable(mc, device)?;
        self.span_mappable(id, device, offset, bytes)?;
        if self.mc_vas.contains_key(id) {
            return Err(invalid("already mapped"));
        }
        self.pay_alloc(device)?;
        self.add_map(id, device, offset, bytes)?;
        let m = self.mc_mut(mc)?;
        m.maps = m.maps.saturating_add(1);
        self.mc_vas.insert(id, mc);
        let _new = self.mc_at.insert(Piece(id, device, offset, bytes));
        Ok(())
    }

    /// Whether a multicast object is mapped into the range.
    pub fn is_multicast_va(&self, id: AllocId) -> (r: bool)
        ensures
            r == self@.is_multicast_va(id),
    {
        self.mc_vas.contains_key(id)
    }

    /// Devices with bound memory.
    pub fn multicast_binds(&self, mc: MulticastId) -> (r: Result<u32, SimError>)
        ensures
            r == self@.multicast_binds(mc),
    {
        let obj = self.mc_ref(mc)?;
        Ok(clamp_u32(obj.binds.size()))
    }

    /// Source and destinations, each once.
    pub(crate) fn multicast_team(
        &self,
        src: DeviceId,
        dests: &[DeviceId],
    ) -> (r: Result<Vec<DeviceId>, SimError>)
        ensures
            ok_view(r) == self@.multicast_team(src, dests@),
    {
        if dests.len() == 0 {
            return Err(invalid("multicast needs NVLink"));
        }
        let mut team: Vec<DeviceId> = one(src);
        let mut i: usize = 0;
        while i < dests.len()
            invariant
                i <= dests@.len(),
                self@.multicast_team(src, dests@) == self@.multicast_team_from(
                    src,
                    dests@,
                    team@,
                    i as int,
                ),
            decreases dests@.len() - i,
        {
            if dests[i] == src {
                return Err(invalid("multicast src is dest"));
            }
            push_new(&mut team, dests[i]);
            i += 1;
        }
        if team.len() < 2 {
            return Err(invalid("multicast needs NVLink"));
        }
        Ok(team)
    }

    /// One map covers the range on every device of the team.
    pub(crate) fn require_whole_maps(
        &self,
        id: AllocId,
        team: &Vec<DeviceId>,
    ) -> (r: Result<(), SimError>)
        ensures
            r == self@.require_whole_maps(id, team@),
    {
        let a: &Alloc = self.alloc_ref(id)?;
        if !a.live || !a.vmm {
            return Err(invalid("not a VA"));
        }
        let mut i: usize = 0;
        while i < team.len()
            invariant
                i <= team@.len(),
                self@.require_whole_maps(id, team@) == each_ok(
                    team@.len(),
                    |j: int| self@.require_whole_maps_at(id, team@, a@, j),
                ),
                forall|j: int| 0 <= j < i ==> #[trigger] self@.require_whole_maps_at(
                    id,
                    team@,
                    a@,
                    j,
                ) is Ok,
            decreases team@.len() - i,
        {
            proof {
                lemma_each_ok(
                    team@.len(),
                    |j: int| self@.require_whole_maps_at(id, team@, a@, j),
                    i as int,
                );
            }
            if !vmm_covers(&a.vmm_maps, team[i], 0, a.bytes) {
                return Err(SimError::NotResident { alloc: id, device: team[i] });
            }
            if self.map_at(&a.vmm_maps, team[i], 0) != Some(a.bytes) {
                return Err(invalid("multicast needs whole-VA maps"));
            }
            i += 1;
        }
        proof {
            lemma_each_ok(
                team@.len(),
                |j: int| self@.require_whole_maps_at(id, team@, a@, j),
                i as int,
            );
        }
        Ok(())
    }

    /// Handle of the whole map of a device.
    pub(crate) fn handle_for_bind(
        &mut self,
        id: AllocId,
        device: DeviceId,
    ) -> (r: Result<MemHandleId, SimError>)
        ensures
            final(self)@ == old(self)@.handle_for_bind(id, device).0,
            r == old(self)@.handle_for_bind(id, device).1,
    {
        let a = self.alloc_ref(id)?;
        let bytes: u64 = a.bytes;
        match self.vmm_handle_at.get(Piece(id, device, 0, bytes)) {
            Some(h) => Ok(*h),
            None => self.va_retain_handle(id, device, 0),
        }
    }

    pub(crate) fn add_team(
        &mut self,
        mc: MulticastId,
        team: &Vec<DeviceId>,
    ) -> (r: Result<(), SimError>)
        ensures
            final(self)@ == old(self)@.add_team(mc, team@).0,
            r == old(self)@.add_team(mc, team@).1,
    {
        let mut i: usize = 0;
        while i < team.len()
            invariant
                i <= team@.len(),
                old(self)@.add_team(mc, team@) == self@.add_team_from(mc, team@, i as int),
            decreases team@.len() - i,
        {
            self.multicast_add_device(mc, team[i])?;
            i += 1;
        }
        Ok(())
    }

    pub(crate) fn bind_team(
        &mut self,
        mc: MulticastId,
        id: AllocId,
        team: &Vec<DeviceId>,
    ) -> (r: Result<(), SimError>)
        ensures
            final(self)@ == old(self)@.bind_team(mc, id, team@).0,
            r == old(self)@.bind_team(mc, id, team@).1,
    {
        let mut i: usize = 0;
        while i < team.len()
            invariant
                i <= team@.len(),
                old(self)@.bind_team(mc, id, team@) == self@.bind_team_from(
                    mc,
                    id,
                    team@,
                    i as int,
                ),
            decreases team@.len() - i,
        {
            let h = self.handle_for_bind(id, team[i])?;
            self.multicast_bind_mem(mc, team[i], h)?;
            i += 1;
        }
        Ok(())
    }

    /// Store a range to its maps on several devices by one kernel.
    pub fn multicast_store(
        &mut self,
        src: DeviceId,
        id: AllocId,
        dests: &[DeviceId],
        stream: StreamId,
    ) -> (r: Result<OpId, SimError>)
        ensures
            final(self)@ == old(self)@.multicast_store(src, id, dests@, stream).0,
            r == old(self)@.multicast_store(src, id, dests@, stream).1,
    {
        self.fail_if_capturing("cannot capture alloc/free")?;
        let a = self.alloc_ref(id)?;
        let bytes: u64 = a.bytes;
        let team: Vec<DeviceId> = self.multicast_team(src, dests)?;
        self.nvlink_clique(&team)?;
        self.require_whole_maps(id, &team)?;
        let n: u32 = if team.len() > 0xffff_ffff {
            0
        } else {
            clamp_u32(team.len())
        };
        let mc = self.multicast_create(bytes, n)?;
        self.add_team(mc, &team)?;
        self.bind_team(mc, id, &team)?;
        let va = self.va_reserve(bytes)?;
        self.va_map_multicast(va, src, 0, mc)?;
        let reads: Vec<AllocId> = one(id);
        let writes: Vec<AllocId> = one(va);
        self.kernel(src, KernelKind::other(0, bytes), reads.as_slice(), writes.as_slice(), stream)
    }
}

} // verus!
