//! Accounting of HBM, pools, pinned host memory and mailbox words.
use vstd::prelude::*;
use crate::error::{invalid, SimError};
use crate::ids::{AllocId, DeviceId, MemHandleId, Piece, PoolId, StreamId, Word};
use crate::list::{copy_vec, drop_key, has_key, push_new, with_new, without};
use crate::num::max_u64;
use crate::ops::{MemcpyOp, Place};
use crate::sim::{Sim, SimState};
use crate::spans::wait_value_mask;
use crate::state::{Alloc, AllocView, Attach, GpuRtView, MemHandle, NextIds, PoolView, Preferred};
use crate::table::{lists, order_of, Table};

verus! {

impl AllocView {
    /// Value of [`Alloc::remote_read_ok`].
    pub open spec fn remote_read_ok(self, device: DeviceId) -> bool {
        if !self.live {
            false
        } else if self.managed {
            if self.accessed_by.contains(device) {
                true
            } else {
                match self.preferred {
                    Preferred::Gpu(p) => self.devices.contains(p) && p != device,
                    Preferred::Nowhere | Preferred::Host => false,
                }
            }
        } else {
            self.vmm && self.accessed_by.contains(device) && self.vmm_maps.len() > 0
        }
    }

    /// Value of [`Alloc::vmm_home`].
    pub open spec fn vmm_home(self) -> Option<DeviceId> {
        if self.vmm_maps.len() == 0 {
            None
        } else {
            Some(self.vmm_maps[0].0)
        }
    }

    /// Value of [`Alloc::device_attach_ok`].
    pub open spec fn device_attach_ok(self, stream: StreamId) -> bool {
        if !self.managed {
            true
        } else {
            match self.attach {
                Attach::Global => true,
                Attach::Host => false,
                Attach::Single(s) => s == stream,
            }
        }
    }

    /// Value of [`Alloc::first_device`].
    pub open spec fn first_device(self) -> Option<DeviceId> {
        if self.devices.len() == 0 {
            None
        } else {
            Some(self.devices[0])
        }
    }
}

impl Alloc {
    /// Whether a kernel on `device` may read without a local copy.
    pub fn remote_read_ok(&self, device: DeviceId) -> (r: bool)
        ensures
            r == self@.remote_read_ok(device),
    {
        if !self.live {
            return false;
        }
        if self.managed {
            if self.accessed_by.contains(device) {
                return true;
            }
            return match self.preferred {
                Preferred::Gpu(p) => has_key(&self.devices, p) && p != device,
                Preferred::Nowhere | Preferred::Host => false,
            };
        }
        self.vmm && self.accessed_by.contains(device) && self.vmm_maps.len() > 0
    }

    /// GPU of the first map of a reserved range.
    pub fn vmm_home(&self) -> (r: Option<DeviceId>)
        ensures
            r == self@.vmm_home(),
    {
        if self.vmm_maps.len() == 0 {
            None
        } else {
            Some(self.vmm_maps[0].0)
        }
    }

    /// Whether a kernel on `stream` may touch the allocation.
    pub fn device_attach_ok(&self, stream: StreamId) -> (r: bool)
        ensures
            r == self@.device_attach_ok(stream),
    {
        if !self.managed {
            return true;
        }
        match self.attach {
            Attach::Global => true,
            Attach::Host => false,
            Attach::Single(s) => s == stream,
        }
    }

    /// First GPU that holds a copy.
    pub fn first_device(&self) -> (r: Option<DeviceId>)
        ensures
            r == self@.first_device(),
    {
        if self.devices.len() == 0 {
            None
        } else {
            Some(self.devices[0])
        }
    }
}

/// The words of allocations other than `id`.
pub open spec fn words_apart(m: Map<Word, u64>, id: AllocId) -> Map<Word, u64> {
    Map::new(|w: Word| m.contains_key(w) && w.0 != id, |w: Word| m[w])
}

fn drop_words(t: &mut Table<Word, u64>, id: AllocId)
    ensures
        final(t)@ == words_apart(old(t)@, id),
{
    let ghost m = t@;
    let ghost q = order_of(m.dom());
    let n: usize = t.len();
    let mut out: Table<Word, u64> = Table::new();
    let mut i: usize = 0;
    assert(out@ =~= words_apart(m, id).restrict(q.take(0).to_set()));
    while i < n
        invariant
            t@ == m,
            q == order_of(m.dom()),
            lists(q, m.dom()),
            n == q.len(),
            i <= n,
            out@ == words_apart(m, id).restrict(q.take(i as int).to_set()),
        decreases n - i,
    {
        let k = t.key_at(i);
        if k.0 != id {
            out.insert(k, *t.val_at(i));
        }
        i += 1;
        proof {
            let a = q.take(i - 1);
            let b = q.take(i as int);
            assert(b =~= a.push(k));
            assert forall|y: Word| b.to_set().contains(y) <==> (
                a.to_set().contains(y) || y == k
            ) by {
                if a.contains(y) {
                    let j = choose|j: int| 0 <= j < a.len() && a[j] == y;
                    assert(b[j] == y);
                }
                if b.contains(y) {
                    let j = choose|j: int| 0 <= j < b.len() && b[j] == y;
                    if j < i - 1 {
                        assert(a[j] == y);
                    }
                }
                assert(b[i - 1] == k);
            }
            assert(out@ =~= words_apart(m, id).restrict(b.to_set()));
        }
    }
    proof {
        assert(q.take(i as int) =~= q);
        assert forall|y: Word| m.contains_key(y) implies q.to_set().contains(y) by {
            assert(q.contains(y));
        }
        assert(out@ =~= words_apart(m, id));
    }
    *t = out;
}

impl SimState {
    /// Effect of [`Sim::bump_hbm_peak`].
    pub open spec fn bump_hbm_peak(self, device: DeviceId) -> (SimState, Result<(), SimError>) {
        let s = self;
        match s.gpu_rt(device) {
            Err(e) => (s, Err(e)),
            Ok(rt) => {
                let peak = rt.used;
                let s = if peak > s.hbm_peak {
                    let s = SimState { hbm_peak: peak, ..s };
                    s
                } else {
                    s
                };
                (s, Ok(()))
            },
        }
    }

    /// Effect of [`Sim::reserve_hbm`].
    #[verifier::opaque]
    pub open spec fn reserve_hbm(
        self,
        device: DeviceId,
        bytes: u64,
    ) -> (SimState, Result<(), SimError>) {
        let s = self;
        match s.profile.gpu(device) {
            Err(e) => (s, Err(e)),
            Ok(gpu) => match s.gpu_rt(device) {
                Err(e) => (s, Err(e)),
                Ok(rt) => {
                    let used = rt.used;
                    let free = gpu.hbm_bytes.saturating_sub(used);
                    if bytes > free {
                        (s, Err(SimError::Oom { device, need: bytes, free }))
                    } else {
                        match s.gpu_rt(device) {
                            Err(e) => (s, Err(e)),
                            Ok(rt) => {
                                let s = SimState {
                                    gpus: s.gpus.insert(
                                        device,
                                        GpuRtView { used: used.saturating_add(bytes), ..rt },
                                    ),
                                    ..s
                                };
                                s.bump_hbm_peak(device)
                            },
                        }
                    }
                },
            },
        }
    }

    /// Effect of [`Sim::refund_hbm`].
    pub open spec fn refund_hbm(
        self,
        device: DeviceId,
        bytes: u64,
    ) -> (SimState, Result<(), SimError>) {
        let s = self;
        match s.gpu_rt(device) {
            Err(e) => (s, Err(e)),
            Ok(rt) => {
                let rt = GpuRtView { used: rt.used.saturating_sub(bytes), ..rt };
                let s = SimState { gpus: s.gpus.insert(device, rt), ..s };
                (s, Ok(()))
            },
        }
    }

    /// Effect of [`Sim::pool_acquire`].
    #[verifier::opaque]
    pub open spec fn pool_acquire(
        self,
        pool: PoolId,
        bytes: u64,
    ) -> (SimState, Result<u64, SimError>) {
        let s = self;
        match s.pool_root(pool) {
            Err(e) => (s, Err(e)),
            Ok(root) => match s.pool_ref(root) {
                Err(e) => (s, Err(e)),
                Ok(p0) => {
                    let device = p0.device;
                    let cached = p0.cached;
                    match s.profile.gpu(device) {
                        Err(e) => (s, Err(e)),
                        Ok(gpu) => if cached >= bytes {
                            match s.pool_ref(root) {
                                Err(e) => (s, Err(e)),
                                Ok(p) => {
                                    let p = PoolView {
                                        cached: cached.saturating_sub(bytes),
                                        live: p.live.saturating_add(bytes),
                                        ..p
                                    };
                                    let s = SimState { pools: s.pools.insert(root, p), ..s };
                                    (s, Ok(max_u64(gpu.pool_reuse_ns, 1)))
                                },
                            }
                        } else {
                            match s.reserve_hbm(device, bytes.saturating_sub(cached)) {
                                (s, Err(e)) => (s, Err(e)),
                                (s, Ok(_v)) => match s.pool_ref(root) {
                                    Err(e) => (s, Err(e)),
                                    Ok(p) => {
                                        let p = PoolView {
                                            cached: 0,
                                            live: p.live.saturating_add(bytes),
                                            ..p
                                        };
                                        let s = SimState { pools: s.pools.insert(root, p), ..s };
                                        (s, Ok(max_u64(gpu.alloc_overhead_ns, 1)))
                                    },
                                },
                            }
                        },
                    }
                },
            },
        }
    }

    /// Effect of [`Sim::pool_release`].
    #[verifier::opaque]
    pub open spec fn pool_release(
        self,
        pool: PoolId,
        bytes: u64,
    ) -> (SimState, Result<(), SimError>) {
        let s = self;
        match s.pool_root(pool) {
            Err(e) => (s, Err(e)),
            Ok(root) => match s.pool_ref(root) {
                Err(e) => (s, Err(e)),
                Ok(p0) => {
                    let device = p0.device;
                    let threshold = p0.release_threshold;
                    let cached = p0.cached.saturating_add(bytes);
                    let live = p0.live.saturating_sub(bytes);
                    match s.pool_ref(root) {
                        Err(e) => (s, Err(e)),
                        Ok(p) => {
                            let p = PoolView { live: live, cached: if cached > threshold {
                                threshold
                            } else {
                                cached
                            }, ..p };
                            let s = SimState { pools: s.pools.insert(root, p), ..s };
                            if cached > threshold {
                                s.refund_hbm(device, cached.saturating_sub(threshold))
                            } else {
                                (s, Ok(()))
                            }
                        },
                    }
                },
            },
        }
    }

    /// Effect of [`Sim::refund_device`].
    pub open spec fn refund_device(
        self,
        device: DeviceId,
        alloc: AllocId,
        bytes: u64,
    ) -> (SimState, Result<(), SimError>) {
        let s = self;
        match s.alloc_ref(alloc) {
            Err(e) => (s, Err(e)),
            Ok(a) => match a.pool {
                Some(p) => match s.pool_ref(p) {
                    Err(e) => (s, Err(e)),
                    Ok(owner) => if owner.device == device {
                        s.pool_release(p, bytes)
                    } else {
                        s.refund_hbm(device, bytes)
                    },
                },
                None => s.refund_hbm(device, bytes),
            },
        }
    }

    /// Effect of [`Sim::maybe_refund_handle`].
    #[verifier::opaque]
    pub open spec fn maybe_refund_handle(
        self,
        handle: MemHandleId,
    ) -> (SimState, Result<(), SimError>) {
        let s = self;
        match s.handle_ref(handle) {
            Err(e) => (s, Err(e)),
            Ok(h) => {
                let device = h.device;
                let bytes = h.bytes;
                if h.refs == 0 && h.maps == 0 && h.charged {
                    match s.refund_hbm(device, bytes) {
                        (s, Err(e)) => (s, Err(e)),
                        (s, Ok(_v)) => match s.handle_ref(handle) {
                            Err(e) => (s, Err(e)),
                            Ok(h) => {
                                let s = SimState {
                                    mem_handles: s.mem_handles.insert(
                                        handle,
                                        MemHandle { charged: false, ..h },
                                    ),
                                    ..s
                                };
                                (s, Ok(()))
                            },
                        },
                    }
                } else {
                    (s, Ok(()))
                }
            },
        }
    }

    /// Effect of [`Sim::drop_vmm_physical`].
    #[verifier::opaque]
    pub open spec fn drop_vmm_physical(
        self,
        id: AllocId,
        device: DeviceId,
        offset: u64,
        bytes: u64,
    ) -> (SimState, Result<(), SimError>) {
        let s = self;
        let multicast = s.mc_at.contains(Piece(id, device, offset, bytes));
        let s = SimState { mc_at: s.mc_at.remove(Piece(id, device, offset, bytes)), ..s };
        let gone = s.vmm_handle_at.get(Piece(id, device, offset, bytes));
        let s = SimState {
            vmm_handle_at: s.vmm_handle_at.remove(Piece(id, device, offset, bytes)),
            ..s
        };
        match gone {
            Some(h) => match s.handle_ref(h) {
                Err(e) => (s, Err(e)),
                Ok(x) => {
                    let x = MemHandle { maps: x.maps.saturating_sub(1), ..x };
                    let s = SimState { mem_handles: s.mem_handles.insert(h, x), ..s };
                    s.maybe_refund_handle(h)
                },
            },
            None => if multicast {
                (s, Ok(()))
            } else {
                s.refund_device(device, id, bytes)
            },
        }
    }

    /// Effect of [`Sim::charge_pin`].
    pub open spec fn charge_pin(self, bytes: u64) -> (SimState, Result<(), SimError>) {
        let s = self;
        let used = s.pinned_used;
        let free = s.profile.host_pin_bytes.saturating_sub(used);
        if bytes > free {
            (s, Err(SimError::PinOom { need: bytes, free }))
        } else {
            let s = SimState { pinned_used: used.saturating_add(bytes), ..s };
            (s, Ok(()))
        }
    }

    /// Effect of [`Sim::refund_pin`].
    pub open spec fn refund_pin(self, bytes: u64) -> SimState {
        let s = self;
        let s = SimState { pinned_used: s.pinned_used.saturating_sub(bytes), ..s };
        s
    }

    /// Effect of [`Sim::add_alloc`].
    pub open spec fn add_alloc(self, a: AllocView) -> (SimState, AllocId) {
        let s = self;
        let id = AllocId(s.next.alloc);
        let s = SimState { next: NextIds { alloc: s.next.alloc.saturating_add(1), ..s.next }, ..s };
        let s = SimState { allocs: s.allocs.insert(id, a), ..s };
        (s, id)
    }

    /// Effect of [`Sim::insert_host`].
    #[verifier::opaque]
    pub open spec fn insert_host(
        self,
        bytes: u64,
        pageable: bool,
        pinned: bool,
        mapped: bool,
        registered: bool,
    ) -> (SimState, Result<AllocId, SimError>) {
        let s = self;
        if bytes == 0 {
            (s, Err(invalid("zero-byte alloc")))
        } else {
            match s.fail_if_capturing("cannot capture alloc/free") {
                Err(e) => (s, Err(e)),
                Ok(_v) => if pinned {
                    match s.charge_pin(bytes) {
                        (s, Err(e)) => (s, Err(e)),
                        (s, Ok(_v)) => {
                            let a = AllocView::blank(bytes);
                            let a = AllocView { live: true, ..a };
                            let a = AllocView { host_pinned: pinned, ..a };
                            let a = AllocView { host_pageable: pageable, ..a };
                            let a = AllocView { host_mapped: mapped, ..a };
                            let a = AllocView { host_registered: registered, ..a };
                            let (s, id) = s.add_alloc(a);
                            (s, Ok(id))
                        },
                    }
                } else {
                    let a = AllocView::blank(bytes);
                    let a = AllocView { live: true, ..a };
                    let a = AllocView { host_pinned: pinned, ..a };
                    let a = AllocView { host_pageable: pageable, ..a };
                    let a = AllocView { host_mapped: mapped, ..a };
                    let a = AllocView { host_registered: registered, ..a };
                    let (s, id) = s.add_alloc(a);
                    (s, Ok(id))
                },
            }
        }
    }

    /// Effect of [`Sim::reserve_now`].
    pub open spec fn reserve_now(
        self,
        device: DeviceId,
        bytes: u64,
    ) -> (SimState, Result<AllocId, SimError>) {
        let s = self;
        match s.reserve_hbm(device, bytes) {
            (s, Err(e)) => (s, Err(e)),
            (s, Ok(_v)) => match s.profile.gpu(device) {
                Err(e) => (s, Err(e)),
                Ok(gpu) => {
                    let s = s.tick(max_u64(gpu.alloc_overhead_ns, 1));
                    let a = AllocView::blank(bytes);
                    let a = AllocView { devices: a.devices.push(device), ..a };
                    let a = AllocView { live: true, ..a };
                    let (s, id) = s.add_alloc(a);
                    (s, Ok(id))
                },
            },
        }
    }

    /// Value of [`Sim::mailbox_word`].
    pub open spec fn mailbox_word(self, id: AllocId, offset: u64) -> u64 {
        match self.mailbox.get(Word(id, offset)) {
            Some(w) => w,
            None => 0,
        }
    }

    /// Effect of [`Sim::apply_mailbox_write`].
    pub open spec fn apply_mailbox_write(
        self,
        id: AllocId,
        offset: u64,
        value: u64,
        bits32: bool,
    ) -> SimState {
        let s = self;
        let mask = wait_value_mask(bits32);
        let prev = s.mailbox_word(id, offset);
        let s = SimState {
            mailbox: s.mailbox.insert(Word(id, offset), (prev & !mask) | (value & mask)),
            ..s
        };
        s
    }

    /// Effect of [`Sim::clear_mailbox`].
    pub open spec fn clear_mailbox(self, id: AllocId) -> SimState {
        let s = self;
        let s = SimState { mailbox: words_apart(s.mailbox, id), ..s };
        s
    }

    /// Effect of [`Sim::close_alias`].
    pub open spec fn close_alias(self, id: AllocId) -> (SimState, Result<(), SimError>) {
        let s = self;
        match s.alloc_ref(id) {
            Err(e) => (s, Err(e)),
            Ok(a) => {
                let a = AllocView { live: false, devices: Seq::empty(), ..a };
                let s = SimState { allocs: s.allocs.insert(id, a), ..s };
                let s = s.clear_mailbox(id);
                (s, Ok(()))
            },
        }
    }

    /// Effect of [`Sim::drop_ipc_import`].
    #[verifier::opaque]
    pub open spec fn drop_ipc_import(self, id: AllocId) -> (SimState, Result<(), SimError>) {
        let s = self;
        match s.alloc_ref(id) {
            Err(e) => (s, Err(e)),
            Ok(alias) => match (
                match alias.ipc_src { Some(x) => Ok(x), None => Err(invalid("not ipc import")) }
            ) {
                Err(e) => (s, Err(e)),
                Ok(src) => if alias.leases > 0 {
                    (s, Err(SimError::Leased { alloc: id }))
                } else {
                    match s.alloc_ref(src) {
                        Err(e) => (s, Err(e)),
                        Ok(from) => {
                            let from = AllocView {
                                ipc_opens: from.ipc_opens.saturating_sub(1),
                                ..from
                            };
                            let s = SimState { allocs: s.allocs.insert(src, from), ..s };
                            s.close_alias(id)
                        },
                    }
                },
            },
        }
    }

    /// Effect of [`Sim::drop_share_import`].
    #[verifier::opaque]
    pub open spec fn drop_share_import(self, id: AllocId) -> (SimState, Result<(), SimError>) {
        let s = self;
        match s.alloc_ref(id) {
            Err(e) => (s, Err(e)),
            Ok(alias) => match (
                match alias.share_src { Some(x) => Ok(x), None => Err(invalid("not share import")) }
            ) {
                Err(e) => (s, Err(e)),
                Ok(src) => if alias.leases > 0 {
                    (s, Err(SimError::Leased { alloc: id }))
                } else {
                    match s.alloc_ref(src) {
                        Err(e) => (s, Err(e)),
                        Ok(from) => {
                            let from = AllocView {
                                share_opens: from.share_opens.saturating_sub(1),
                                ..from
                            };
                            let s = SimState { allocs: s.allocs.insert(src, from), ..s };
                            s.close_alias(id)
                        },
                    }
                },
            },
        }
    }

    /// Effect of [`Sim::migrate_off_except`].
    pub open spec fn migrate_off_except(
        self,
        alloc: AllocId,
        keep: DeviceId,
    ) -> (SimState, Result<(), SimError>) {
        let s = self;
        match s.alloc_ref(alloc) {
            Err(e) => (s, Err(e)),
            Ok(a0) => {
                let bytes = a0.bytes;
                let holders = a0.devices;
                s.migrate_off_except_from(alloc, keep, bytes, holders, 0)
            },
        }
    }

    /// [`Sim::migrate_off_except`] from position `i` on.
    pub open spec fn migrate_off_except_from(
        self,
        alloc: AllocId,
        keep: DeviceId,
        bytes: u64,
        holders: Seq<DeviceId>,
        i: int,
    ) -> (SimState, Result<(), SimError>)
        decreases holders.len() - i,
    {
        let s = self;
        if 0 <= i < holders.len() {
            let d = holders[i];
            if d == keep {
                s.migrate_off_except_from(alloc, keep, bytes, holders, i + 1)
            } else {
                match s.refund_device(d, alloc, bytes) {
                    (s, Err(e)) => (s, Err(e)),
                    (s, Ok(_v)) => match s.alloc_ref(alloc) {
                        Err(e) => (s, Err(e)),
                        Ok(a) => {
                            let a = AllocView { devices: without(a.devices, d), ..a };
                            let s = SimState { allocs: s.allocs.insert(alloc, a), ..s };
                            s.migrate_off_except_from(alloc, keep, bytes, holders, i + 1)
                        },
                    },
                }
            }
        } else {
            (s, Ok(()))
        }
    }

    /// Effect of [`Sim::migrate_off_all`].
    pub open spec fn migrate_off_all(self, alloc: AllocId) -> (SimState, Result<(), SimError>) {
        let s = self;
        match s.alloc_ref(alloc) {
            Err(e) => (s, Err(e)),
            Ok(a0) => {
                let bytes = a0.bytes;
                let holders = a0.devices;
                s.migrate_off_all_from(alloc, bytes, holders, 0)
            },
        }
    }

    /// [`Sim::migrate_off_all`] from position `i` on.
    pub open spec fn migrate_off_all_from(
        self,
        alloc: AllocId,
        bytes: u64,
        holders: Seq<DeviceId>,
        i: int,
    ) -> (SimState, Result<(), SimError>)
        decreases holders.len() - i,
    {
        let s = self;
        if 0 <= i < holders.len() {
            match s.refund_device(holders[i], alloc, bytes) {
                (s, Err(e)) => (s, Err(e)),
                (s, Ok(_v)) => s.migrate_off_all_from(alloc, bytes, holders, i + 1),
            }
        } else {
            match s.alloc_ref(alloc) {
                Err(e) => (s, Err(e)),
                Ok(a) => {
                    let s = SimState {
                        allocs: s.allocs.insert(alloc, AllocView { devices: Seq::empty(), ..a }),
                        ..s
                    };
                    (s, Ok(()))
                },
            }
        }
    }

    /// Effect of [`Sim::charge_replica_hbm`].
    pub open spec fn charge_replica_hbm(self, m: MemcpyOp) -> (SimState, Result<(), SimError>) {
        let s = self;
        match m.dst {
            Place::Device(dst) => match s.alloc_ref(m.alloc) {
                Err(e) => (s, Err(e)),
                Ok(a) => if a.devices.contains(dst) {
                    (s, Ok(()))
                } else {
                    let bytes = a.bytes;
                    s.reserve_hbm(dst, bytes)
                },
            },
            Place::Host | Place::HostPinned => (s, Ok(())),
        }
    }

    /// Value of [`Sim::managed_move_src`].
    pub open spec fn managed_move_src(
        self,
        alloc: AllocId,
        dest: Option<DeviceId>,
    ) -> Result<(u64, Place), SimError> {
        match self.alloc_ref(alloc) {
            Err(e) => Err(e),
            Ok(a) => if !a.live || !a.managed {
                Err(invalid("not managed"))
            } else {
                let here = (match dest {
                    Some(d) => a.devices.contains(d),
                    None => false,
                });
                let src = if here || a.devices.len() == 0 {
                    Place::HostPinned
                } else {
                    Place::Device(a.devices[0])
                };
                Ok((a.bytes, src))
            },
        }
    }

    /// Effect of [`Sim::finish_memcpy`].
    #[verifier::opaque]
    pub open spec fn finish_memcpy(
        self,
        device: DeviceId,
        m: MemcpyOp,
        dma: bool,
    ) -> (SimState, Result<(), SimError>) {
        let s = self;
        if dma {
            match s.gpu_rt(device) {
                Err(e) => (s, Err(e)),
                Ok(rt) => {
                    let rt = GpuRtView { copies: rt.copies.saturating_sub(1), ..rt };
                    let s = SimState { gpus: s.gpus.insert(device, rt), ..s };
                    let s = SimState {
                        bytes_moved: s.bytes_moved.saturating_add(m.payload_bytes()),
                        ..s
                    };
                    match s.alloc_ref(m.alloc) {
                        Err(e) => (s, Err(e)),
                        Ok(a0) => {
                            let managed = a0.managed;
                            let read_mostly = a0.read_mostly;
                            match m.dst {
                                Place::Device(dst) => match s.alloc_ref(m.alloc) {
                                    Err(e) => (s, Err(e)),
                                    Ok(a) => {
                                        let a = AllocView {
                                            devices: with_new(a.devices, dst),
                                            ..a
                                        };
                                        let s = SimState {
                                            allocs: s.allocs.insert(m.alloc, a),
                                            ..s
                                        };
                                        if managed && !read_mostly {
                                            s.migrate_off_except(m.alloc, dst)
                                        } else {
                                            (s, Ok(()))
                                        }
                                    },
                                },
                                Place::Host => if managed {
                                    s.migrate_off_all(m.alloc)
                                } else {
                                    (s, Ok(()))
                                },
                                Place::HostPinned => if managed {
                                    s.migrate_off_all(m.alloc)
                                } else {
                                    match s.alloc_ref(m.alloc) {
                                        Err(e) => (s, Err(e)),
                                        Ok(a) => {
                                            let s = SimState {
                                                allocs: s.allocs.insert(
                                                    m.alloc,
                                                    AllocView { host_pinned: true, ..a },
                                                ),
                                                ..s
                                            };
                                            (s, Ok(()))
                                        },
                                    }
                                },
                            }
                        },
                    }
                },
            }
        } else {
            match s.alloc_ref(m.alloc) {
                Err(e) => (s, Err(e)),
                Ok(a0) => {
                    let managed = a0.managed;
                    let read_mostly = a0.read_mostly;
                    match m.dst {
                        Place::Device(dst) => match s.alloc_ref(m.alloc) {
                            Err(e) => (s, Err(e)),
                            Ok(a) => {
                                let a = AllocView { devices: with_new(a.devices, dst), ..a };
                                let s = SimState { allocs: s.allocs.insert(m.alloc, a), ..s };
                                if managed && !read_mostly {
                                    s.migrate_off_except(m.alloc, dst)
                                } else {
                                    (s, Ok(()))
                                }
                            },
                        },
                        Place::Host => if managed {
                            s.migrate_off_all(m.alloc)
                        } else {
                            (s, Ok(()))
                        },
                        Place::HostPinned => if managed {
                            s.migrate_off_all(m.alloc)
                        } else {
                            match s.alloc_ref(m.alloc) {
                                Err(e) => (s, Err(e)),
                                Ok(a) => {
                                    let s = SimState {
                                        allocs: s.allocs.insert(
                                            m.alloc,
                                            AllocView { host_pinned: true, ..a },
                                        ),
                                        ..s
                                    };
                                    (s, Ok(()))
                                },
                            }
                        },
                    }
                },
            }
        }
    }
}

impl Sim {
    /// Raise the high-water mark to the charged bytes of `device`.
    pub(crate) fn bump_hbm_peak(&mut self, device: DeviceId) -> (r: Result<(), SimError>)
        ensures
            final(self)@ == old(self)@.bump_hbm_peak(device).0,
            r == old(self)@.bump_hbm_peak(device).1,
    {
        let rt = self.gpu_rt(device)?;
        let peak: u64 = rt.used;
        if peak > self.hbm_peak {
            self.hbm_peak = peak;
        }
        Ok(())
    }

    /// Charge `bytes` of HBM, or [`SimError::Oom`].
    pub(crate) fn reserve_hbm(&mut self, device: DeviceId, bytes: u64) -> (r: Result<(), SimError>)
        ensures
            final(self)@ == old(self)@.reserve_hbm(device, bytes).0,
            r == old(self)@.reserve_hbm(device, bytes).1,
    {
        reveal(SimState::reserve_hbm);
        let gpu = self.profile.gpu(device)?;
        let rt = self.gpu_rt(device)?;
        let used: u64 = rt.used;
        let free: u64 = gpu.hbm_bytes.saturating_sub(used);
        if bytes > free {
            return Err(SimError::Oom { device, need: bytes, free });
        }
        self.gpu_rt_mut(device)?.used = used.saturating_add(bytes);
        self.bump_hbm_peak(device)
    }

    /// Return `bytes` of HBM.
    pub(crate) fn refund_hbm(&mut self, device: DeviceId, bytes: u64) -> (r: Result<(), SimError>)
        ensures
            final(self)@ == old(self)@.refund_hbm(device, bytes).0,
            r == old(self)@.refund_hbm(device, bytes).1,
    {
        let rt = self.gpu_rt_mut(device)?;
        rt.used = rt.used.saturating_sub(bytes);
        Ok(())
    }

    /// Take `bytes` from a pool: from its cache if that suffices, else the rest from HBM. Returns
    /// the cost in nanoseconds.
    pub(crate) fn pool_acquire(&mut self, pool: PoolId, bytes: u64) -> (r: Result<u64, SimError>)
        ensures
            final(self)@ == old(self)@.pool_acquire(pool, bytes).0,
            r == old(self)@.pool_acquire(pool, bytes).1,
    {
        reveal(SimState::pool_acquire);
        let root = self.pool_root(pool)?;
        let p0 = self.pool_ref(root)?;
        let device = p0.device;
        let cached: u64 = p0.cached;
        let gpu = self.profile.gpu(device)?;
        if cached >= bytes {
            let p = self.pool_mut(root)?;
            p.cached = cached.saturating_sub(bytes);
            p.live = p.live.saturating_add(bytes);
            return Ok(max_u64(gpu.pool_reuse_ns, 1));
        }
        self.reserve_hbm(device, bytes.saturating_sub(cached))?;
        let p = self.pool_mut(root)?;
        p.cached = 0;
        p.live = p.live.saturating_add(bytes);
        Ok(max_u64(gpu.alloc_overhead_ns, 1))
    }

    /// Give `bytes` back to a pool. What exceeds the release threshold returns to the device.
    pub(crate) fn pool_release(&mut self, pool: PoolId, bytes: u64) -> (r: Result<(), SimError>)
        ensures
            final(self)@ == old(self)@.pool_release(pool, bytes).0,
            r == old(self)@.pool_release(pool, bytes).1,
    {
        reveal(SimState::pool_release);
        let root = self.pool_root(pool)?;
        let p0 = self.pool_ref(root)?;
        let device = p0.device;
        let threshold: u64 = p0.release_threshold;
        let cached: u64 = p0.cached.saturating_add(bytes);
        let live: u64 = p0.live.saturating_sub(bytes);
        let p = self.pool_mut(root)?;
        p.live = live;
        p.cached = if cached > threshold { threshold } else { cached };
        if cached > threshold {
            return self.refund_hbm(device, cached.saturating_sub(threshold));
        }
        Ok(())
    }

    /// Return the bytes of an allocation on `device`, to its pool where that is on the device.
    pub(crate) fn refund_device(
        &mut self,
        device: DeviceId,
        alloc: AllocId,
        bytes: u64,
    ) -> (r: Result<(), SimError>)
        ensures
            final(self)@ == old(self)@.refund_device(device, alloc, bytes).0,
            r == old(self)@.refund_device(device, alloc, bytes).1,
    {
        let a = self.alloc_ref(alloc)?;
        match a.pool {
            Some(p) => {
                let owner = self.pool_ref(p)?;
                if owner.device == device {
                    return self.pool_release(p, bytes);
                }
                self.refund_hbm(device, bytes)
            },
            None => self.refund_hbm(device, bytes),
        }
    }

    /// Free HBM of a handle that has neither references nor maps.
    pub(crate) fn maybe_refund_handle(&mut self, handle: MemHandleId) -> (r: Result<(), SimError>)
        ensures
            final(self)@ == old(self)@.maybe_refund_handle(handle).0,
            r == old(self)@.maybe_refund_handle(handle).1,
    {
        reveal(SimState::maybe_refund_handle);
        let h = self.handle_ref(handle)?;
        let device = h.device;
        let bytes: u64 = h.bytes;
        if h.refs == 0 && h.maps == 0 && h.charged {
            self.refund_hbm(device, bytes)?;
            self.handle_mut(handle)?.charged = false;
        }
        Ok(())
    }

    /// Unmap one span: an explicit handle loses a map, a multicast span goes without a refund, and
    /// other memory is refunded.
    pub(crate) fn drop_vmm_physical(
        &mut self,
        id: AllocId,
        device: DeviceId,
        offset: u64,
        bytes: u64,
    ) -> (r: Result<(), SimError>)
        ensures
            final(self)@ == old(self)@.drop_vmm_physical(id, device, offset, bytes).0,
            r == old(self)@.drop_vmm_physical(id, device, offset, bytes).1,
    {
        reveal(SimState::drop_vmm_physical);
        let multicast: bool = self.mc_at.contains(Piece(id, device, offset, bytes));
        let _was = self.mc_at.remove(Piece(id, device, offset, bytes));
        let gone = self.vmm_handle_at.remove(Piece(id, device, offset, bytes));
        match gone {
            Some(h) => {
                let x = self.handle_mut(h)?;
                x.maps = x.maps.saturating_sub(1);
                self.maybe_refund_handle(h)
            },
            None => {
                if multicast {
                    return Ok(());
                }
                self.refund_device(device, id, bytes)
            },
        }
    }

    /// Charge pinned host bytes, or [`SimError::PinOom`].
    pub(crate) fn charge_pin(&mut self, bytes: u64) -> (r: Result<(), SimError>)
        ensures
            final(self)@ == old(self)@.charge_pin(bytes).0,
            r == old(self)@.charge_pin(bytes).1,
    {
        let used: u64 = self.pinned_used;
        let free: u64 = self.profile.host_pin_bytes.saturating_sub(used);
        if bytes > free {
            return Err(SimError::PinOom { need: bytes, free });
        }
        self.pinned_used = used.saturating_add(bytes);
        Ok(())
    }

    /// Return pinned host bytes.
    pub(crate) fn refund_pin(&mut self, bytes: u64)
        ensures
            final(self)@ == old(self)@.refund_pin(bytes),
    {
        self.pinned_used = self.pinned_used.saturating_sub(bytes);
    }

    /// Record an allocation under the next number.
    pub(crate) fn add_alloc(&mut self, a: Alloc) -> (r: AllocId)
        ensures
            final(self)@ == old(self)@.add_alloc(a@).0,
            r == old(self)@.add_alloc(a@).1,
    {
        let id = AllocId(self.next.alloc);
        self.next.alloc = self.next.alloc.saturating_add(1);
        self.allocs.insert(id, a);
        id
    }

    /// New host allocation.
    pub(crate) fn insert_host(
        &mut self,
        bytes: u64,
        pageable: bool,
        pinned: bool,
        mapped: bool,
        registered: bool,
    ) -> (r: Result<AllocId, SimError>)
        ensures
            final(self)@ == old(self)@.insert_host(bytes, pageable, pinned, mapped, registered).0,
            r == old(self)@.insert_host(bytes, pageable, pinned, mapped, registered).1,
    {
        reveal(SimState::insert_host);
        if bytes == 0 {
            return Err(invalid("zero-byte alloc"));
        }
        self.fail_if_capturing("cannot capture alloc/free")?;
        if pinned {
            self.charge_pin(bytes)?;
        }
        let mut a: Alloc = Alloc::blank(bytes);
        a.live = true;
        a.host_pinned = pinned;
        a.host_pageable = pageable;
        a.host_mapped = mapped;
        a.host_registered = registered;
        let id = self.add_alloc(a);
        Ok(id)
    }

    /// Charge HBM and return a live allocation at once.
    pub(crate) fn reserve_now(
        &mut self,
        device: DeviceId,
        bytes: u64,
    ) -> (r: Result<AllocId, SimError>)
        ensures
            final(self)@ == old(self)@.reserve_now(device, bytes).0,
            r == old(self)@.reserve_now(device, bytes).1,
    {
        self.reserve_hbm(device, bytes)?;
        let gpu = self.profile.gpu(device)?;
        self.tick(max_u64(gpu.alloc_overhead_ns, 1));
        let mut a: Alloc = Alloc::blank(bytes);
        a.devices.push(device);
        a.live = true;
        let id = self.add_alloc(a);
        Ok(id)
    }

    /// Word at `offset`; `0` if it was never written.
    pub(crate) fn mailbox_word(&self, id: AllocId, offset: u64) -> (r: u64)
        ensures
            r == self@.mailbox_word(id, offset),
    {
        match self.mailbox.get(Word(id, offset)) {
            Some(w) => *w,
            None => 0,
        }
    }

    /// Store the masked bits of a word.
    pub(crate) fn apply_mailbox_write(&mut self, id: AllocId, offset: u64, value: u64, bits32: bool)
        ensures
            final(self)@ == old(self)@.apply_mailbox_write(id, offset, value, bits32),
    {
        let mask: u64 = wait_value_mask(bits32);
        let prev: u64 = self.mailbox_word(id, offset);
        self.mailbox.insert(Word(id, offset), (prev & !mask) | (value & mask));
    }

    /// Forget the words of an allocation.
    pub(crate) fn clear_mailbox(&mut self, id: AllocId)
        ensures
            final(self)@ == old(self)@.clear_mailbox(id),
    {
        drop_words(&mut self.mailbox, id);
    }

    /// End an alias: it is no longer live and holds no copy and no words.
    pub(crate) fn close_alias(&mut self, id: AllocId) -> (r: Result<(), SimError>)
        ensures
            final(self)@ == old(self)@.close_alias(id).0,
            r == old(self)@.close_alias(id).1,
    {
        let a = self.alloc_mut(id)?;
        a.live = false;
        a.devices = Vec::new();
        self.clear_mailbox(id);
        Ok(())
    }

    /// Close an interprocess import: the source loses one open and the alias dies.
    pub(crate) fn drop_ipc_import(&mut self, id: AllocId) -> (r: Result<(), SimError>)
        ensures
            final(self)@ == old(self)@.drop_ipc_import(id).0,
            r == old(self)@.drop_ipc_import(id).1,
    {
        reveal(SimState::drop_ipc_import);
        let alias = self.alloc_ref(id)?;
        let src = alias.ipc_src.ok_or(invalid("not ipc import"))?;
        if alias.leases > 0 {
            return Err(SimError::Leased { alloc: id });
        }
        let from = self.alloc_mut(src)?;
        from.ipc_opens = from.ipc_opens.saturating_sub(1);
        self.close_alias(id)
    }

    /// Close a pool pointer import: the source loses one open and the alias dies.
    pub(crate) fn drop_share_import(&mut self, id: AllocId) -> (r: Result<(), SimError>)
        ensures
            final(self)@ == old(self)@.drop_share_import(id).0,
            r == old(self)@.drop_share_import(id).1,
    {
        reveal(SimState::drop_share_import);
        let alias = self.alloc_ref(id)?;
        let src = alias.share_src.ok_or(invalid("not share import"))?;
        if alias.leases > 0 {
            return Err(SimError::Leased { alloc: id });
        }
        let from = self.alloc_mut(src)?;
        from.share_opens = from.share_opens.saturating_sub(1);
        self.close_alias(id)
    }

    /// Drop every copy of managed memory but the one on `keep`.
    pub(crate) fn migrate_off_except(
        &mut self,
        alloc: AllocId,
        keep: DeviceId,
    ) -> (r: Result<(), SimError>)
        ensures
            final(self)@ == old(self)@.migrate_off_except(alloc, keep).0,
            r == old(self)@.migrate_off_except(alloc, keep).1,
    {
        let a0 = self.alloc_ref(alloc)?;
        let bytes: u64 = a0.bytes;
        let holders: Vec<DeviceId> = copy_vec(&a0.devices);
        let mut i: usize = 0;
        while i < holders.len()
            invariant
                i <= holders@.len(),
                old(self)@.migrate_off_except(alloc, keep) == self@.migrate_off_except_from(
                    alloc,
                    keep,
                    bytes,
                    holders@,
                    i as int,
                ),
            decreases holders@.len() - i,
        {
            let d = holders[i];
            if d == keep {
                i += 1;
                continue;
            }
            self.refund_device(d, alloc, bytes)?;
            let a = self.alloc_mut(alloc)?;
            drop_key(&mut a.devices, d);
            i += 1;
        }
        Ok(())
    }

    /// Drop every copy of managed memory.
    pub(crate) fn migrate_off_all(&mut self, alloc: AllocId) -> (r: Result<(), SimError>)
        ensures
            final(self)@ == old(self)@.migrate_off_all(alloc).0,
            r == old(self)@.migrate_off_all(alloc).1,
    {
        let a0 = self.alloc_ref(alloc)?;
        let bytes: u64 = a0.bytes;
        let holders: Vec<DeviceId> = copy_vec(&a0.devices);
        let mut i: usize = 0;
        while i < holders.len()
            invariant
                i <= holders@.len(),
                old(self)@.migrate_off_all(alloc) == self@.migrate_off_all_from(
                    alloc,
                    bytes,
                    holders@,
                    i as int,
                ),
            decreases holders@.len() - i,
        {
            self.refund_device(holders[i], alloc, bytes)?;
            i += 1;
        }
        self.alloc_mut(alloc)?.devices = Vec::new();
        Ok(())
    }

    /// A copy onto a GPU without a copy yet charges that GPU.
    pub(crate) fn charge_replica_hbm(&mut self, m: MemcpyOp) -> (r: Result<(), SimError>)
        ensures
            final(self)@ == old(self)@.charge_replica_hbm(m).0,
            r == old(self)@.charge_replica_hbm(m).1,
    {
        match m.dst {
            Place::Device(dst) => {
                let a = self.alloc_ref(m.alloc)?;
                if has_key(&a.devices, dst) {
                    return Ok(());
                }
                let bytes: u64 = a.bytes;
                self.reserve_hbm(dst, bytes)
            },
            Place::Host | Place::HostPinned => Ok(()),
        }
    }

    /// Bytes and source of a migration of managed memory to `dest`, or to the host.
    pub(crate) fn managed_move_src(
        &self,
        alloc: AllocId,
        dest: Option<DeviceId>,
    ) -> (r: Result<(u64, Place), SimError>)
        ensures
            r == self@.managed_move_src(alloc, dest),
    {
        let a = self.alloc_ref(alloc)?;
        if !a.live || !a.managed {
            return Err(invalid("not managed"));
        }
        let here: bool = match dest {
            Some(d) => has_key(&a.devices, d),
            None => false,
        };
        let src = if here || a.devices.len() == 0 {
            Place::HostPinned
        } else {
            Place::Device(a.devices[0])
        };
        Ok((a.bytes, src))
    }

    /// Effects of a completed copy.
    pub(crate) fn finish_memcpy(
        &mut self,
        device: DeviceId,
        m: MemcpyOp,
        dma: bool,
    ) -> (r: Result<(), SimError>)
        ensures
            final(self)@ == old(self)@.finish_memcpy(device, m, dma).0,
            r == old(self)@.finish_memcpy(device, m, dma).1,
    {
        reveal(SimState::finish_memcpy);
        if dma {
            let rt = self.gpu_rt_mut(device)?;
            rt.copies = rt.copies.saturating_sub(1);
            self.bytes_moved = self.bytes_moved.saturating_add(m.payload_bytes());
        }
        let a0 = self.alloc_ref(m.alloc)?;
        let managed: bool = a0.managed;
        let read_mostly: bool = a0.read_mostly;
        match m.dst {
            Place::Device(dst) => {
                let a = self.alloc_mut(m.alloc)?;
                push_new(&mut a.devices, dst);
                if managed && !read_mostly {
                    return self.migrate_off_except(m.alloc, dst);
                }
                Ok(())
            },
            Place::Host => {
                if managed {
                    return self.migrate_off_all(m.alloc);
                }
                Ok(())
            },
            Place::HostPinned => {
                if managed {
                    return self.migrate_off_all(m.alloc);
                }
                self.alloc_mut(m.alloc)?.host_pinned = true;
                Ok(())
            },
        }
    }
}

} // verus!
