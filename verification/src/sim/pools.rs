//! Memory pools.
use vstd::prelude::*;
use crate::error::{invalid, SimError};
use crate::ids::{AllocId, DeviceId, PoolId, PtrExportId, ShareableHandleId, StreamId};
use crate::list::{copy_vec, first_where, lemma_first_at, picked};
use crate::num::max_u64;
use crate::ops::{GpuOp, GpuOpView, GraphMemAttr, MemAccessFlags, MemPoolAttr};
use crate::sim::{Sim, SimState};
use crate::state::{Alloc, AllocView, CaptureView, GpuRtView, NextIds, Pool, PoolView};
use crate::table::{drop_value, lists, order_of, without_value};

verus! {

impl SimState {
    pub open spec fn is_default_pool_at(self, k: DeviceId, pool: PoolId) -> bool {
        let o = self.default_pools[k];
        o == pool
    }

    /// The pool is the default pool of a device.
    pub open spec fn is_default_pool(self, pool: PoolId) -> bool {
        exists|k: DeviceId| self.default_pools.contains_key(k) && #[trigger] self.is_default_pool_at(k, pool)
    }
}

impl Sim {
    /// The pool is the default pool of a device.
    pub(crate) fn is_default_pool(&self, pool: PoolId) -> (r: bool)
        ensures
            r == self@.is_default_pool(pool),
    {
        let ghost q = order_of(self@.default_pools.dom());
        let n: usize = self.default_pools.len();
        let mut i: usize = 0;
        while i < n
            invariant
                q == order_of(self@.default_pools.dom()),
                lists(q, self@.default_pools.dom()),
                n == q.len(),
                i <= n,
                forall|j: int| 0 <= j < i ==> !self@.is_default_pool_at(#[trigger] q[j], pool),
            decreases n - i,
        {
            let o = self.default_pools.val_at(i);
            if *o == pool {
                assert(self@.is_default_pool_at(q[i as int], pool));
                return true;
            }
            i += 1;
        }
        assert forall|k: DeviceId| self@.default_pools.contains_key(k) implies !self@.is_default_pool_at(k, pool) by {
            assert(q.contains(k));
        }
        false
    }
}

impl SimState {
    /// Effect of [`Sim::alloc_async`].
    pub open spec fn alloc_async(
        self,
        device: DeviceId,
        bytes: u64,
        stream: StreamId,
    ) -> (SimState, Result<AllocId, SimError>) {
        let s = self;
        match s.stream_pool(device, stream) {
            Err(e) => (s, Err(e)),
            Ok(pool) => s.alloc_from_pool_inner(device, pool, bytes, stream),
        }
    }

    /// Value of [`Sim::stream_pool`].
    pub open spec fn stream_pool(
        self,
        device: DeviceId,
        stream: StreamId,
    ) -> Result<PoolId, SimError> {
        if self.in_capture(device, stream) {
            self.graph_pool(device)
        } else {
            self.device_mempool(device)
        }
    }

    /// Value of [`Sim::default_pool`].
    pub open spec fn default_pool(self, device: DeviceId) -> Result<PoolId, SimError> {
        match self.profile.gpu(device) {
            Err(e) => Err(e),
            Ok(_gpu) => match self.default_pools.get(device) {
                Some(p) => Ok(p),
                None => Err(invalid("default pool missing")),
            },
        }
    }

    /// Value of [`Sim::device_mempool`].
    pub open spec fn device_mempool(self, device: DeviceId) -> Result<PoolId, SimError> {
        match self.profile.gpu(device) {
            Err(e) => Err(e),
            Ok(_gpu) => match self.current_pools.get(device) {
                Some(p) => Ok(p),
                None => Err(invalid("device mempool missing")),
            },
        }
    }

    /// Value of [`Sim::refuse_graph_pool`].
    pub open spec fn refuse_graph_pool(self, pool: PoolId) -> Result<(), SimError> {
        match self.pool_root(pool) {
            Err(e) => Err(e),
            Ok(root) => match self.pool_ref(root) {
                Err(e) => Err(e),
                Ok(p) => if p.graph {
                    Err(invalid("graph mem pool"))
                } else {
                    Ok(())
                },
            },
        }
    }

    /// Value of [`Sim::refuse_destroyed_pool`].
    pub open spec fn refuse_destroyed_pool(self, pool: PoolId) -> Result<(), SimError> {
        match self.pool_ref(pool) {
            Err(e) => Err(e),
            Ok(p) => if p.destroyed {
                Err(invalid("destroyed pool"))
            } else {
                match self.pool_root(pool) {
                    Err(e) => Err(e),
                    Ok(root) => match self.pool_ref(root) {
                        Err(e) => Err(e),
                        Ok(r) => if r.destroyed {
                            Err(invalid("destroyed pool"))
                        } else {
                            Ok(())
                        },
                    },
                }
            },
        }
    }

    /// What position `i` adds to [`Sim::users_of_pool`].
    pub open spec fn users_of_pool_at(self, pool: PoolId, i: int) -> Option<DeviceId> {
        if self.current_pools[order_of(self.current_pools.dom())[i]] == pool {
            Some(order_of(self.current_pools.dom())[i])
        } else {
            None
        }
    }

    /// Value of [`Sim::users_of_pool`].
    pub open spec fn users_of_pool(self, pool: PoolId) -> Seq<DeviceId> {
        picked(order_of(self.current_pools.dom()).len(), |i: int| self.users_of_pool_at(pool, i))
    }

    /// Effect of [`Sim::rebind_current_pools`].
    pub open spec fn rebind_current_pools(self, pool: PoolId) -> SimState {
        let s = self;
        let users = s.users_of_pool(pool);
        s.rebind_current_pools_from(users, 0)
    }

    /// [`Sim::rebind_current_pools`] from position `i` on.
    pub open spec fn rebind_current_pools_from(self, users: Seq<DeviceId>, i: int) -> SimState
        decreases users.len() - i,
    {
        let s = self;
        if 0 <= i < users.len() {
            let d = users[i];
            let def = (match s.default_pools.get(d) {
                Some(p) => Some(p),
                None => None,
            });
            let s = match def {
                Some(p) => {
                    let s = SimState { current_pools: s.current_pools.insert(d, p), ..s };
                    s
                },
                _ => s,
            };
            s.rebind_current_pools_from(users, i + 1)
        } else {
            s
        }
    }

    /// Effect of [`Sim::set_device_mempool`].
    pub open spec fn set_device_mempool(
        self,
        device: DeviceId,
        pool: PoolId,
    ) -> (SimState, Result<(), SimError>) {
        let s = self;
        match s.fail_if_capturing("cannot capture mempool") {
            Err(e) => (s, Err(e)),
            Ok(_v) => match s.refuse_graph_pool(pool) {
                Err(e) => (s, Err(e)),
                Ok(_v) => match s.refuse_destroyed_pool(pool) {
                    Err(e) => (s, Err(e)),
                    Ok(_v) => match s.profile.gpu(device) {
                        Err(e) => (s, Err(e)),
                        Ok(_gpu) => match s.pool_ref(pool) {
                            Err(e) => (s, Err(e)),
                            Ok(p) => if p.device != device {
                                (s, Err(invalid("pool device mismatch")))
                            } else {
                                let s = SimState {
                                    current_pools: s.current_pools.insert(device, pool),
                                    ..s
                                };
                                let s = s.tick(s.first_alloc_ns());
                                (s, Ok(()))
                            },
                        },
                    },
                },
            },
        }
    }

    /// Effect of [`Sim::create_pool`].
    pub open spec fn create_pool(self, device: DeviceId) -> (SimState, Result<PoolId, SimError>) {
        let s = self;
        s.insert_pool(device, false)
    }

    /// Effect of [`Sim::create_shareable_pool`].
    pub open spec fn create_shareable_pool(
        self,
        device: DeviceId,
    ) -> (SimState, Result<PoolId, SimError>) {
        let s = self;
        s.insert_pool(device, true)
    }

    /// Effect of [`Sim::insert_pool`].
    pub open spec fn insert_pool(
        self,
        device: DeviceId,
        shareable: bool,
    ) -> (SimState, Result<PoolId, SimError>) {
        let s = self;
        match s.fail_if_capturing("cannot capture mempool") {
            Err(e) => (s, Err(e)),
            Ok(_v) => match s.profile.gpu(device) {
                Err(e) => (s, Err(e)),
                Ok(_gpu) => {
                    let id = PoolId(s.next.pool);
                    let s = SimState {
                        next: NextIds { pool: s.next.pool.saturating_add(1), ..s.next },
                        ..s
                    };
                    let p = PoolView::fresh(device);
                    let p = PoolView { shareable: shareable, ..p };
                    let s = SimState { pools: s.pools.insert(id, p), ..s };
                    (s, Ok(id))
                },
            },
        }
    }

    /// Effect of [`Sim::destroy_pool`].
    pub open spec fn destroy_pool(self, pool: PoolId) -> (SimState, Result<(), SimError>) {
        let s = self;
        match s.fail_if_capturing("cannot capture mempool") {
            Err(e) => (s, Err(e)),
            Ok(_v) => match s.refuse_graph_pool(pool) {
                Err(e) => (s, Err(e)),
                Ok(_v) => match s.pool_ref(pool) {
                    Err(e) => (s, Err(e)),
                    Ok(p) => if p.destroyed {
                        (s, Err(invalid("destroyed pool")))
                    } else if s.is_default_pool(pool) {
                        (s, Err(invalid("default pool")))
                    } else {
                        let imported = p.share_root.is_some();
                        let s = s.rebind_current_pools(pool);
                        match s.retire_pool(pool, imported) {
                            (s, Err(e)) => (s, Err(e)),
                            (s, Ok(_v)) => {
                                let s = s.tick(s.first_alloc_ns());
                                (s, Ok(()))
                            },
                        }
                    },
                },
            },
        }
    }

    /// Effect of [`Sim::retire_pool`].
    #[verifier::opaque]
    pub open spec fn retire_pool(
        self,
        pool: PoolId,
        imported: bool,
    ) -> (SimState, Result<(), SimError>) {
        let s = self;
        if imported {
            match s.pool_ref(pool) {
                Err(e) => (s, Err(e)),
                Ok(p) => {
                    let s = SimState {
                        pools: s.pools.insert(pool, PoolView { destroyed: true, ..p }),
                        ..s
                    };
                    (s, Ok(()))
                },
            }
        } else {
            match s.pool_trim_to(pool, 0) {
                (s, Err(e)) => (s, Err(e)),
                (s, Ok(_dropped)) => match s.pool_ref(pool) {
                    Err(e) => (s, Err(e)),
                    Ok(p) => {
                        let p = PoolView { release_threshold: 0, destroyed: true, ..p };
                        let s = SimState { pools: s.pools.insert(pool, p), ..s };
                        let s = SimState {
                            share_handles: without_value(s.share_handles, pool),
                            ..s
                        };
                        (s, Ok(()))
                    },
                },
            }
        }
    }

    /// Effect of [`Sim::alloc_from_pool`].
    pub open spec fn alloc_from_pool(
        self,
        device: DeviceId,
        pool: PoolId,
        bytes: u64,
        stream: StreamId,
    ) -> (SimState, Result<AllocId, SimError>) {
        let s = self;
        match s.refuse_graph_pool(pool) {
            Err(e) => (s, Err(e)),
            Ok(_v) => match s.refuse_destroyed_pool(pool) {
                Err(e) => (s, Err(e)),
                Ok(_v) => s.alloc_from_pool_inner(device, pool, bytes, stream),
            },
        }
    }

    /// Effect of [`Sim::alloc_from_pool_inner`].
    #[verifier::opaque]
    pub open spec fn alloc_from_pool_inner(
        self,
        device: DeviceId,
        pool: PoolId,
        bytes: u64,
        stream: StreamId,
    ) -> (SimState, Result<AllocId, SimError>) {
        let s = self;
        if bytes == 0 {
            (s, Err(invalid("zero-byte alloc")))
        } else {
            match s.pool_ref(pool) {
                Err(e) => (s, Err(e)),
                Ok(p) => if p.device != device {
                    (s, Err(invalid("pool device mismatch")))
                } else {
                    let (s, id) = s.insert_pool_alloc(pool, bytes);
                    match s.submit(device, stream, GpuOpView::Alloc { id, bytes }) {
                        (s, Err(e)) => (s, Err(e)),
                        (s, Ok(_op)) => {
                            let s = if s.in_capture(device, stream) {
                                let s = match s.capturing {
                                    Some(cap) => {
                                        let cap = CaptureView {
                                            mem_allocs: cap.mem_allocs.push(id),
                                            ..cap
                                        };
                                        let s = SimState { capturing: Some(cap), ..s };
                                        s
                                    },
                                    _ => s,
                                };
                                s
                            } else {
                                s
                            };
                            (s, Ok(id))
                        },
                    }
                },
            }
        }
    }

    /// Effect of [`Sim::set_pool_release_threshold`].
    pub open spec fn set_pool_release_threshold(
        self,
        pool: PoolId,
        bytes: u64,
    ) -> (SimState, Result<(), SimError>) {
        let s = self;
        match s.fail_if_capturing("cannot capture mempool") {
            Err(e) => (s, Err(e)),
            Ok(_v) => match s.pool_root(pool) {
                Err(e) => (s, Err(e)),
                Ok(root) => match s.refuse_graph_pool(root) {
                    Err(e) => (s, Err(e)),
                    Ok(_v) => match s.refuse_destroyed_pool(pool) {
                        Err(e) => (s, Err(e)),
                        Ok(_v) => match s.refuse_destroyed_pool(root) {
                            Err(e) => (s, Err(e)),
                            Ok(_v) => match s.pool_ref(root) {
                                Err(e) => (s, Err(e)),
                                Ok(p) => {
                                    let s = SimState {
                                        pools: s.pools.insert(
                                            root,
                                            PoolView { release_threshold: bytes, ..p },
                                        ),
                                        ..s
                                    };
                                    (s, Ok(()))
                                },
                            },
                        },
                    },
                },
            },
        }
    }

    /// Value of [`Sim::pool_get_attribute`].
    pub open spec fn pool_get_attribute(
        self,
        pool: PoolId,
        attr: MemPoolAttr,
    ) -> Result<u64, SimError> {
        match self.refuse_graph_pool(pool) {
            Err(e) => Err(e),
            Ok(_v) => match self.refuse_destroyed_pool(pool) {
                Err(e) => Err(e),
                Ok(_v) => match self.pool_root(pool) {
                    Err(e) => Err(e),
                    Ok(root) => match self.pool_ref(root) {
                        Err(e) => Err(e),
                        Ok(p) => match attr {
                            MemPoolAttr::ReleaseThreshold => Ok(p.release_threshold),
                            MemPoolAttr::UsedMemCurrent => Ok(p.live),
                            MemPoolAttr::ReservedMemCurrent => Ok(p.live.saturating_add(p.cached)),
                        },
                    },
                },
            },
        }
    }

    /// Effect of [`Sim::pool_set_attribute`].
    pub open spec fn pool_set_attribute(
        self,
        pool: PoolId,
        attr: MemPoolAttr,
        value: u64,
    ) -> (SimState, Result<(), SimError>) {
        let s = self;
        if (match attr { MemPoolAttr::ReleaseThreshold => true, _ => false }) {
            s.set_pool_release_threshold(pool, value)
        } else {
            match s.fail_if_capturing("cannot capture mempool") {
                Err(e) => (s, Err(e)),
                Ok(_v) => match s.refuse_graph_pool(pool) {
                    Err(e) => (s, Err(e)),
                    Ok(_v) => match s.refuse_destroyed_pool(pool) {
                        Err(e) => (s, Err(e)),
                        Ok(_v) => (s, Err(invalid("read-only pool attr"))),
                    },
                },
            }
        }
    }

    /// Value of [`Sim::pools_in_use`].
    pub open spec fn pools_in_use(self) -> Seq<PoolId> {
        Seq::new(
            order_of(self.current_pools.dom()).len(),
            |i: int| self.current_pools[order_of(self.current_pools.dom())[i]],
        )
    }

    /// Effect of [`Sim::set_default_pool_release_threshold`].
    pub open spec fn set_default_pool_release_threshold(
        self,
        bytes: u64,
    ) -> (SimState, Result<(), SimError>) {
        let s = self;
        let ids = s.pools_in_use();
        s.set_default_pool_release_threshold_from(bytes, ids, 0)
    }

    /// [`Sim::set_default_pool_release_threshold`] from position `i` on.
    pub open spec fn set_default_pool_release_threshold_from(
        self,
        bytes: u64,
        ids: Seq<PoolId>,
        i: int,
    ) -> (SimState, Result<(), SimError>)
        decreases ids.len() - i,
    {
        let s = self;
        if 0 <= i < ids.len() {
            match s.set_pool_release_threshold(ids[i], bytes) {
                (s, Err(e)) => (s, Err(e)),
                (s, Ok(_v)) => s.set_default_pool_release_threshold_from(bytes, ids, i + 1),
            }
        } else {
            (s, Ok(()))
        }
    }
}

impl Sim {
    /// Allocate in stream order from the pool of the device, or from its graph-memory pool while
    /// the stream is being captured.
    pub fn alloc_async(
        &mut self,
        device: DeviceId,
        bytes: u64,
        stream: StreamId,
    ) -> (r: Result<AllocId, SimError>)
        ensures
            final(self)@ == old(self)@.alloc_async(device, bytes, stream).0,
            r == old(self)@.alloc_async(device, bytes, stream).1,
    {
        let pool = self.stream_pool(device, stream)?;
        self.alloc_from_pool_inner(device, pool, bytes, stream)
    }

    /// Pool of a stream-ordered allocation.
    pub(crate) fn stream_pool(
        &self,
        device: DeviceId,
        stream: StreamId,
    ) -> (r: Result<PoolId, SimError>)
        ensures
            r == self@.stream_pool(device, stream),
    {
        if self.in_capture(device, stream) {
            return self.graph_pool(device);
        }
        self.device_mempool(device)
    }

    /// Default pool of a device.
    pub fn default_pool(&self, device: DeviceId) -> (r: Result<PoolId, SimError>)
        ensures
            r == self@.default_pool(device),
    {
        let _gpu = self.profile.gpu(device)?;
        match self.default_pools.get(device) {
            Some(p) => Ok(*p),
            None => Err(invalid("default pool missing")),
        }
    }

    /// Pool that a device allocates from.
    pub fn device_mempool(&self, device: DeviceId) -> (r: Result<PoolId, SimError>)
        ensures
            r == self@.device_mempool(device),
    {
        let _gpu = self.profile.gpu(device)?;
        match self.current_pools.get(device) {
            Some(p) => Ok(*p),
            None => Err(invalid("device mempool missing")),
        }
    }

    pub(crate) fn refuse_graph_pool(&self, pool: PoolId) -> (r: Result<(), SimError>)
        ensures
            r == self@.refuse_graph_pool(pool),
    {
        let root = self.pool_root(pool)?;
        let p = self.pool_ref(root)?;
        if p.graph {
            return Err(invalid("graph mem pool"));
        }
        Ok(())
    }

    pub(crate) fn refuse_destroyed_pool(&self, pool: PoolId) -> (r: Result<(), SimError>)
        ensures
            r == self@.refuse_destroyed_pool(pool),
    {
        let p = self.pool_ref(pool)?;
        if p.destroyed {
            return Err(invalid("destroyed pool"));
        }
        let root = self.pool_root(pool)?;
        let r = self.pool_ref(root)?;
        if r.destroyed {
            return Err(invalid("destroyed pool"));
        }
        Ok(())
    }

    /// Devices that allocate from a pool.
    pub(crate) fn users_of_pool(&self, pool: PoolId) -> (r: Vec<DeviceId>)
        ensures
            r@ == self@.users_of_pool(pool),
    {
        let mut out: Vec<DeviceId> = Vec::new();
        let mut i: usize = 0;
        while i < self.current_pools.len()
            invariant
                i <= order_of(self@.current_pools.dom()).len(),
                out@ == picked(i as nat, |j: int| self@.users_of_pool_at(pool, j)),
            decreases order_of(self@.current_pools.dom()).len() - i,
        {
            if *self.current_pools.val_at(i) == pool {
                out.push(self.current_pools.key_at(i));
            }
            i += 1;
        }
        out
    }

    /// Devices that allocate from a pool go back to their default pools.
    pub(crate) fn rebind_current_pools(&mut self, pool: PoolId)
        ensures
            final(self)@ == old(self)@.rebind_current_pools(pool),
    {
        let users: Vec<DeviceId> = self.users_of_pool(pool);
        let mut i: usize = 0;
        while i < users.len()
            invariant
                i <= users@.len(),
                old(self)@.rebind_current_pools(pool) == self@.rebind_current_pools_from(
                    users@,
                    i as int,
                ),
            decreases users@.len() - i,
        {
            let d: DeviceId = users[i];
            let def: Option<PoolId> = match self.default_pools.get(d) {
                Some(p) => Some(*p),
                None => None,
            };
            if let Some(p) = def {
                self.current_pools.insert(d, p);
            }
            i += 1;
        }
    }

    /// Let a device allocate from a pool of its own.
    pub fn set_device_mempool(
        &mut self,
        device: DeviceId,
        pool: PoolId,
    ) -> (r: Result<(), SimError>)
        ensures
            final(self)@ == old(self)@.set_device_mempool(device, pool).0,
            r == old(self)@.set_device_mempool(device, pool).1,
    {
        self.fail_if_capturing("cannot capture mempool")?;
        self.refuse_graph_pool(pool)?;
        self.refuse_destroyed_pool(pool)?;
        let _gpu = self.profile.gpu(device)?;
        let p = self.pool_ref(pool)?;
        if p.device != device {
            return Err(invalid("pool device mismatch"));
        }
        self.current_pools.insert(device, pool);
        self.tick(self.first_alloc_ns());
        Ok(())
    }

    /// New pool of a device.
    pub fn create_pool(&mut self, device: DeviceId) -> (r: Result<PoolId, SimError>)
        ensures
            final(self)@ == old(self)@.create_pool(device).0,
            r == old(self)@.create_pool(device).1,
    {
        self.insert_pool(device, false)
    }

    /// New pool of a device that can be exported.
    pub fn create_shareable_pool(&mut self, device: DeviceId) -> (r: Result<PoolId, SimError>)
        ensures
            final(self)@ == old(self)@.create_shareable_pool(device).0,
            r == old(self)@.create_shareable_pool(device).1,
    {
        self.insert_pool(device, true)
    }

    pub(crate) fn insert_pool(
        &mut self,
        device: DeviceId,
        shareable: bool,
    ) -> (r: Result<PoolId, SimError>)
        ensures
            final(self)@ == old(self)@.insert_pool(device, shareable).0,
            r == old(self)@.insert_pool(device, shareable).1,
    {
        self.fail_if_capturing("cannot capture mempool")?;
        let _gpu = self.profile.gpu(device)?;
        let id = PoolId(self.next.pool);
        self.next.pool = self.next.pool.saturating_add(1);
        let mut p: Pool = Pool::fresh(device);
        p.shareable = shareable;
        self.pools.insert(id, p);
        Ok(id)
    }

    /// Destroy a pool. Its cached bytes go back to the device; its allocations stay valid.
    pub fn destroy_pool(&mut self, pool: PoolId) -> (r: Result<(), SimError>)
        ensures
            final(self)@ == old(self)@.destroy_pool(pool).0,
            r == old(self)@.destroy_pool(pool).1,
    {
        self.fail_if_capturing("cannot capture mempool")?;
        self.refuse_graph_pool(pool)?;
        let p = self.pool_ref(pool)?;
        if p.destroyed {
            return Err(invalid("destroyed pool"));
        }
        if self.is_default_pool(pool) {
            return Err(invalid("default pool"));
        }
        let imported: bool = p.share_root.is_some();
        self.rebind_current_pools(pool);
        self.retire_pool(pool, imported)?;
        self.tick(self.first_alloc_ns());
        Ok(())
    }

    /// Mark a pool as destroyed; one that was not imported gives up its cache and its handles.
    pub(crate) fn retire_pool(&mut self, pool: PoolId, imported: bool) -> (r: Result<(), SimError>)
        ensures
            final(self)@ == old(self)@.retire_pool(pool, imported).0,
            r == old(self)@.retire_pool(pool, imported).1,
    {
        reveal(SimState::retire_pool);
        if imported {
            self.pool_mut(pool)?.destroyed = true;
            return Ok(());
        }
        let _dropped = self.pool_trim_to(pool, 0)?;
        let p = self.pool_mut(pool)?;
        p.release_threshold = 0;
        p.destroyed = true;
        drop_value(&mut self.share_handles, pool);
        Ok(())
    }

    /// Allocate in stream order from a pool of the device.
    pub fn alloc_from_pool(
        &mut self,
        device: DeviceId,
        pool: PoolId,
        bytes: u64,
        stream: StreamId,
    ) -> (r: Result<AllocId, SimError>)
        ensures
            final(self)@ == old(self)@.alloc_from_pool(device, pool, bytes, stream).0,
            r == old(self)@.alloc_from_pool(device, pool, bytes, stream).1,
    {
        self.refuse_graph_pool(pool)?;
        self.refuse_destroyed_pool(pool)?;
        self.alloc_from_pool_inner(device, pool, bytes, stream)
    }

    pub(crate) fn alloc_from_pool_inner(
        &mut self,
        device: DeviceId,
        pool: PoolId,
        bytes: u64,
        stream: StreamId,
    ) -> (r: Result<AllocId, SimError>)
        ensures
            final(self)@ == old(self)@.alloc_from_pool_inner(device, pool, bytes, stream).0,
            r == old(self)@.alloc_from_pool_inner(device, pool, bytes, stream).1,
    {
        reveal(SimState::alloc_from_pool_inner);
        if bytes == 0 {
            return Err(invalid("zero-byte alloc"));
        }
        let p = self.pool_ref(pool)?;
        if p.device != device {
            return Err(invalid("pool device mismatch"));
        }
        let id = self.insert_pool_alloc(pool, bytes);
        let _op = self.submit(device, stream, GpuOp::Alloc { id, bytes })?;
        if self.in_capture(device, stream) {
            if let Some(cap) = self.capturing.as_mut() {
                cap.mem_allocs.push(id);
            }
        }
        Ok(id)
    }

    /// Bytes that later frees may leave cached.
    pub fn set_pool_release_threshold(
        &mut self,
        pool: PoolId,
        bytes: u64,
    ) -> (r: Result<(), SimError>)
        ensures
            final(self)@ == old(self)@.set_pool_release_threshold(pool, bytes).0,
            r == old(self)@.set_pool_release_threshold(pool, bytes).1,
    {
        self.fail_if_capturing("cannot capture mempool")?;
        let root = self.pool_root(pool)?;
        self.refuse_graph_pool(root)?;
        self.refuse_destroyed_pool(pool)?;
        self.refuse_destroyed_pool(root)?;
        self.pool_mut(root)?.release_threshold = bytes;
        Ok(())
    }

    /// An attribute of a pool, by name. An imported pool reports the exporter.
    pub fn pool_get_attribute(&self, pool: PoolId, attr: MemPoolAttr) -> (r: Result<u64, SimError>)
        ensures
            r == self@.pool_get_attribute(pool, attr),
    {
        self.refuse_graph_pool(pool)?;
        self.refuse_destroyed_pool(pool)?;
        let root = self.pool_root(pool)?;
        let p = self.pool_ref(root)?;
        match attr {
            MemPoolAttr::ReleaseThreshold => Ok(p.release_threshold),
            MemPoolAttr::UsedMemCurrent => Ok(p.live),
            MemPoolAttr::ReservedMemCurrent => Ok(p.live.saturating_add(p.cached)),
        }
    }

    /// Change an attribute of a pool, by name. Only the release threshold can change.
    pub fn pool_set_attribute(
        &mut self,
        pool: PoolId,
        attr: MemPoolAttr,
        value: u64,
    ) -> (r: Result<(), SimError>)
        ensures
            final(self)@ == old(self)@.pool_set_attribute(pool, attr, value).0,
            r == old(self)@.pool_set_attribute(pool, attr, value).1,
    {
        if matches!(attr, MemPoolAttr::ReleaseThreshold) {
            return self.set_pool_release_threshold(pool, value);
        }
        self.fail_if_capturing("cannot capture mempool")?;
        self.refuse_graph_pool(pool)?;
        self.refuse_destroyed_pool(pool)?;
        Err(invalid("read-only pool attr"))
    }

    /// Pools in use, by device.
    pub(crate) fn pools_in_use(&self) -> (r: Vec<PoolId>)
        ensures
            r@ == self@.pools_in_use(),
    {
        let mut out: Vec<PoolId> = Vec::new();
        let mut i: usize = 0;
        while i < self.current_pools.len()
            invariant
                i <= order_of(self@.current_pools.dom()).len(),
                out@.len() == i,
                forall|j: int| 0 <= j < i ==> #[trigger] out@[j] == self@.pools_in_use()[j],
            decreases order_of(self@.current_pools.dom()).len() - i,
        {
            out.push(*self.current_pools.val_at(i));
            i += 1;
        }
        assert(out@ =~= self@.pools_in_use());
        out
    }

    /// Release threshold of the pool of every device.
    pub fn set_default_pool_release_threshold(&mut self, bytes: u64) -> (r: Result<(), SimError>)
        ensures
            final(self)@ == old(self)@.set_default_pool_release_threshold(bytes).0,
            r == old(self)@.set_default_pool_release_threshold(bytes).1,
    {
        let ids: Vec<PoolId> = self.pools_in_use();
        let mut i: usize = 0;
        while i < ids.len()
            invariant
                i <= ids@.len(),
                old(self)@.set_default_pool_release_threshold(bytes) == self@.set_default_pool_release_threshold_from(
                    bytes,
                    ids@,
                    i as int,
                ),
            decreases ids@.len() - i,
        {
            self.set_pool_release_threshold(ids[i], bytes)?;
            i += 1;
        }
        Ok(())
    }
}

impl SimState {
    /// Cached bytes of a pool above `min_bytes` go back to its device; gives their number.
    pub open spec fn pool_trim_to(
        self,
        pool: PoolId,
        min_bytes: u64,
    ) -> (SimState, Result<u64, SimError>) {
        let s = self;
        match s.fail_if_capturing("cannot capture mempool") {
            Err(e) => (s, Err(e)),
            Ok(_v) => match s.pool_root(pool) {
                Err(e) => (s, Err(e)),
                Ok(root) => match s.refuse_destroyed_pool(root) {
                    Err(e) => (s, Err(e)),
                    Ok(_v) => {
                        let p = s.pools[root];
                        let excess = p.cached.saturating_sub(min_bytes);
                        if excess == 0 {
                            (s, Ok(0))
                        } else {
                            let p = PoolView { cached: min_bytes, ..p };
                            let s = SimState { pools: s.pools.insert(root, p), ..s };
                            match s.refund_hbm(p.device, excess) {
                                (s, Err(e)) => (s, Err(e)),
                                (s, Ok(_v)) => (s, Ok(excess)),
                            }
                        }
                    },
                },
            },
        }
    }
}

impl SimState {
    /// Value of [`Sim::pool_cached`].
    pub open spec fn pool_cached(self, pool: PoolId) -> Result<u64, SimError> {
        match self.pool_root(pool) {
            Err(e) => Err(e),
            Ok(root) => match self.pool_ref(root) {
                Err(e) => Err(e),
                Ok(p) => Ok(p.cached),
            },
        }
    }

    /// Value of [`Sim::pool_live`].
    pub open spec fn pool_live(self, pool: PoolId) -> Result<u64, SimError> {
        match self.pool_root(pool) {
            Err(e) => Err(e),
            Ok(root) => match self.pool_ref(root) {
                Err(e) => Err(e),
                Ok(p) => Ok(p.live),
            },
        }
    }

    /// Value of [`Sim::reachable_from`].
    pub open spec fn reachable_from(
        self,
        owner: DeviceId,
        device: DeviceId,
    ) -> Result<(), SimError> {
        if owner != device {
            match self.profile.link(Some(owner), Some(device)) {
                Err(e) => Err(e),
                Ok(_link) => if !self.peer_access(owner, device) {
                    Err(SimError::PeerDisabled { src: owner, dst: device })
                } else {
                    Ok(())
                },
            }
        } else {
            Ok(())
        }
    }

    /// Effect of [`Sim::pool_set_access`].
    pub open spec fn pool_set_access(
        self,
        pool: PoolId,
        device: DeviceId,
    ) -> (SimState, Result<(), SimError>) {
        let s = self;
        match s.fail_if_capturing("cannot capture mempool") {
            Err(e) => (s, Err(e)),
            Ok(_v) => match s.refuse_graph_pool(pool) {
                Err(e) => (s, Err(e)),
                Ok(_v) => match s.refuse_destroyed_pool(pool) {
                    Err(e) => (s, Err(e)),
                    Ok(_v) => match s.profile.gpu(device) {
                        Err(e) => (s, Err(e)),
                        Ok(_gpu) => match s.pool_ref(pool) {
                            Err(e) => (s, Err(e)),
                            Ok(p) => match s.reachable_from(p.device, device) {
                                Err(e) => (s, Err(e)),
                                Ok(_v) => match s.pool_ref(pool) {
                                    Err(e) => (s, Err(e)),
                                    Ok(q) => {
                                        let q = PoolView {
                                            accessed_by: q.accessed_by.insert(device),
                                            ..q
                                        };
                                        let s = SimState { pools: s.pools.insert(pool, q), ..s };
                                        let s = s.tick(s.first_alloc_ns());
                                        (s, Ok(()))
                                    },
                                },
                            },
                        },
                    },
                },
            },
        }
    }

    /// Effect of [`Sim::pool_unset_access`].
    pub open spec fn pool_unset_access(
        self,
        pool: PoolId,
        device: DeviceId,
    ) -> (SimState, Result<(), SimError>) {
        let s = self;
        match s.fail_if_capturing("cannot capture mempool") {
            Err(e) => (s, Err(e)),
            Ok(_v) => match s.refuse_destroyed_pool(pool) {
                Err(e) => (s, Err(e)),
                Ok(_v) => match s.profile.gpu(device) {
                    Err(e) => (s, Err(e)),
                    Ok(_gpu) => match s.pool_ref(pool) {
                        Err(e) => (s, Err(e)),
                        Ok(q) => {
                            let q = PoolView { accessed_by: q.accessed_by.remove(device), ..q };
                            let s = SimState { pools: s.pools.insert(pool, q), ..s };
                            let s = s.tick(s.first_alloc_ns());
                            (s, Ok(()))
                        },
                    },
                },
            },
        }
    }

    /// Value of [`Sim::is_pool_accessed_by`].
    pub open spec fn is_pool_accessed_by(
        self,
        pool: PoolId,
        device: DeviceId,
    ) -> Result<bool, SimError> {
        match self.pool_ref(pool) {
            Err(e) => Err(e),
            Ok(p) => Ok(p.accessed_by.contains(device)),
        }
    }

    /// Value of [`Sim::pool_get_access`].
    pub open spec fn pool_get_access(
        self,
        pool: PoolId,
        device: DeviceId,
    ) -> Result<u32, SimError> {
        match self.profile.gpu(device) {
            Err(e) => Err(e),
            Ok(_gpu) => match self.refuse_graph_pool(pool) {
                Err(e) => Err(e),
                Ok(_v) => match self.refuse_destroyed_pool(pool) {
                    Err(e) => Err(e),
                    Ok(_v) => match self.pool_ref(pool) {
                        Err(e) => Err(e),
                        Ok(p) => if p.device == device || p.accessed_by.contains(device) {
                            Ok(MemAccessFlags::PROT_READ_WRITE)
                        } else {
                            Ok(MemAccessFlags::PROT_NONE)
                        },
                    },
                },
            },
        }
    }

    /// Value of [`Sim::is_pool_shareable`].
    pub open spec fn is_pool_shareable(self, pool: PoolId) -> Result<bool, SimError> {
        match self.pool_ref(pool) {
            Err(e) => Err(e),
            Ok(p) => Ok(p.shareable),
        }
    }

    /// Value of [`Sim::is_pool_imported`].
    pub open spec fn is_pool_imported(self, pool: PoolId) -> Result<bool, SimError> {
        match self.pool_ref(pool) {
            Err(e) => Err(e),
            Ok(p) => Ok(p.share_root.is_some()),
        }
    }

    /// Whether [`Sim::share_handle_of`] finds something at position `i`.
    pub open spec fn share_handle_of_at(self, pool: PoolId, i: int) -> bool {
        self.share_handles[order_of(self.share_handles.dom())[i]] == pool
    }

    /// Value of [`Sim::share_handle_of`].
    pub open spec fn share_handle_of(self, pool: PoolId) -> Option<ShareableHandleId> {
        match first_where(
            order_of(self.share_handles.dom()).len(),
            |i: int| self.share_handle_of_at(pool, i),
        ) {
            Some(i) => Some(order_of(self.share_handles.dom())[i]),
            None => None,
        }
    }

    /// Effect of [`Sim::pay_alloc`].
    pub open spec fn pay_alloc(self, device: DeviceId) -> (SimState, Result<(), SimError>) {
        let s = self;
        match s.profile.gpu(device) {
            Err(e) => (s, Err(e)),
            Ok(gpu) => {
                let s = s.tick(max_u64(gpu.alloc_overhead_ns, 1));
                (s, Ok(()))
            },
        }
    }

    /// Effect of [`Sim::pool_export`].
    pub open spec fn pool_export(
        self,
        pool: PoolId,
    ) -> (SimState, Result<ShareableHandleId, SimError>) {
        let s = self;
        match s.fail_if_capturing("cannot capture mempool") {
            Err(e) => (s, Err(e)),
            Ok(_v) => match s.refuse_destroyed_pool(pool) {
                Err(e) => (s, Err(e)),
                Ok(_v) => match s.pool_ref(pool) {
                    Err(e) => (s, Err(e)),
                    Ok(p) => {
                        let device = p.device;
                        if !p.shareable {
                            (s, Err(invalid("not shareable")))
                        } else {
                            match s.share_handle_of(pool) {
                                Some(h) => (s, Ok(h)),
                                _ => match s.pay_alloc(device) {
                                    (s, Err(e)) => (s, Err(e)),
                                    (s, Ok(_v)) => {
                                        let h = ShareableHandleId(s.next.share);
                                        let s = SimState {
                                            next: NextIds {
                                                share: s.next.share.saturating_add(1),
                                                ..s.next
                                            },
                                            ..s
                                        };
                                        let s = SimState {
                                            share_handles: s.share_handles.insert(h, pool),
                                            ..s
                                        };
                                        (s, Ok(h))
                                    },
                                },
                            }
                        }
                    },
                },
            },
        }
    }

    /// Effect of [`Sim::pool_import`].
    pub open spec fn pool_import(
        self,
        device: DeviceId,
        handle: ShareableHandleId,
    ) -> (SimState, Result<PoolId, SimError>) {
        let s = self;
        match s.fail_if_capturing("cannot capture mempool") {
            Err(e) => (s, Err(e)),
            Ok(_v) => match s.share_handles.get(handle) {
                Some(p) => {
                    let src = p;
                    match s.pool_root(src) {
                        Err(e) => (s, Err(e)),
                        Ok(root) => match s.refuse_destroyed_pool(root) {
                            Err(e) => (s, Err(e)),
                            Ok(_v) => match s.pool_ref(root) {
                                Err(e) => (s, Err(e)),
                                Ok(r) => if r.device != device {
                                    (s, Err(invalid("pool device mismatch")))
                                } else {
                                    match s.pay_alloc(device) {
                                        (s, Err(e)) => (s, Err(e)),
                                        (s, Ok(_v)) => {
                                            let id = PoolId(s.next.pool);
                                            let s = SimState {
                                                next: NextIds {
                                                    pool: s.next.pool.saturating_add(1),
                                                    ..s.next
                                                },
                                                ..s
                                            };
                                            let p = PoolView::fresh(device);
                                            let p = PoolView { share_root: Some(root), ..p };
                                            let s = SimState { pools: s.pools.insert(id, p), ..s };
                                            (s, Ok(id))
                                        },
                                    }
                                },
                            },
                        },
                    }
                },
                None => (s, Err(invalid("unknown shareable"))),
            },
        }
    }

    /// Value of [`Sim::shareable_ptr_pool`].
    pub open spec fn shareable_ptr_pool(self, id: AllocId) -> Result<PoolId, SimError> {
        match self.alloc_ref(id) {
            Err(e) => Err(e),
            Ok(a) => if !a.live || a.managed || a.vmm || a.host_pinned || a.host_pageable {
                Err(invalid("not shareable ptr"))
            } else if a.ipc_src.is_some() || a.share_src.is_some() || a.devices.len() == 0 {
                Err(invalid("not shareable ptr"))
            } else {
                match a.pool {
                    Some(p) => Ok(p),
                    None => Err(invalid("not shareable ptr")),
                }
            },
        }
    }

    /// Whether [`Sim::ptr_export_of`] finds something at position `i`.
    pub open spec fn ptr_export_of_at(self, id: AllocId, i: int) -> bool {
        self.ptr_exports[order_of(self.ptr_exports.dom())[i]] == id
    }

    /// Value of [`Sim::ptr_export_of`].
    pub open spec fn ptr_export_of(self, id: AllocId) -> Option<PtrExportId> {
        match first_where(
            order_of(self.ptr_exports.dom()).len(),
            |i: int| self.ptr_export_of_at(id, i),
        ) {
            Some(i) => Some(order_of(self.ptr_exports.dom())[i]),
            None => None,
        }
    }

    /// Value of [`Sim::holder_of`].
    pub open spec fn holder_of(self, id: AllocId, why: &'static str) -> Result<DeviceId, SimError> {
        match self.alloc_ref(id) {
            Err(e) => Err(e),
            Ok(a) => match a.first_device() {
                Some(d) => Ok(d),
                None => Err(invalid(why)),
            },
        }
    }

    /// Effect of [`Sim::pool_export_ptr`].
    pub open spec fn pool_export_ptr(
        self,
        id: AllocId,
    ) -> (SimState, Result<PtrExportId, SimError>) {
        let s = self;
        match s.fail_if_capturing("cannot capture mempool") {
            Err(e) => (s, Err(e)),
            Ok(_v) => match s.shareable_ptr_pool(id) {
                Err(e) => (s, Err(e)),
                Ok(pool) => match s.holder_of(id, "not shareable ptr") {
                    Err(e) => (s, Err(e)),
                    Ok(device) => match s.pool_root(pool) {
                        Err(e) => (s, Err(e)),
                        Ok(root) => match s.pool_ref(root) {
                            Err(e) => (s, Err(e)),
                            Ok(r) => if !r.shareable {
                                (s, Err(invalid("not shareable ptr")))
                            } else {
                                match s.ptr_export_of(id) {
                                    Some(h) => (s, Ok(h)),
                                    _ => match s.pay_alloc(device) {
                                        (s, Err(e)) => (s, Err(e)),
                                        (s, Ok(_v)) => {
                                            let h = PtrExportId(s.next.ptr);
                                            let s = SimState {
                                                next: NextIds {
                                                    ptr: s.next.ptr.saturating_add(1),
                                                    ..s.next
                                                },
                                                ..s
                                            };
                                            let s = SimState {
                                                ptr_exports: s.ptr_exports.insert(h, id),
                                                ..s
                                            };
                                            (s, Ok(h))
                                        },
                                    },
                                }
                            },
                        },
                    },
                },
            },
        }
    }

    /// Value of [`Sim::importable_ptr`].
    pub open spec fn importable_ptr(
        self,
        pool: PoolId,
        export: PtrExportId,
    ) -> Result<AllocId, SimError> {
        match self.ptr_exports.get(export) {
            Some(a) => {
                let src = a;
                match self.pool_root(pool) {
                    Err(e) => Err(e),
                    Ok(root) => match self.pool_ref(pool) {
                        Err(e) => Err(e),
                        Ok(p) => if p.share_root.is_none() {
                            Err(invalid("not imported pool"))
                        } else {
                            match self.alloc_ref(src) {
                                Err(e) => Err(e),
                                Ok(a) => if !a.live {
                                    Err(invalid("freed"))
                                } else {
                                    match a.pool {
                                        Some(x) => {
                                            let src_pool = x;
                                            match self.pool_root(src_pool) {
                                                Err(e) => Err(e),
                                                Ok(src_root) => match self.holder_of(
                                                    src,
                                                    "not shareable ptr",
                                                ) {
                                                    Err(e) => Err(e),
                                                    Ok(_d) => if src_root != root {
                                                        Err(invalid("pool mismatch"))
                                                    } else {
                                                        Ok(src)
                                                    },
                                                },
                                            }
                                        },
                                        None => Err(invalid("not shareable ptr")),
                                    }
                                },
                            }
                        },
                    },
                }
            },
            None => Err(invalid("unknown ptr export")),
        }
    }

    /// Effect of [`Sim::pool_import_ptr`].
    pub open spec fn pool_import_ptr(
        self,
        pool: PoolId,
        export: PtrExportId,
    ) -> (SimState, Result<AllocId, SimError>) {
        let s = self;
        match s.fail_if_capturing("cannot capture mempool") {
            Err(e) => (s, Err(e)),
            Ok(_v) => match s.importable_ptr(pool, export) {
                Err(e) => (s, Err(e)),
                Ok(src) => match s.holder_of(src, "not shareable ptr") {
                    Err(e) => (s, Err(e)),
                    Ok(device) => match s.alloc_ref(src) {
                        Err(e) => (s, Err(e)),
                        Ok(a) => {
                            let opens = a.share_opens;
                            let alias = AllocView::blank(a.bytes);
                            let alias = AllocView { devices: a.devices, ..alias };
                            let alias = AllocView { live: true, ..alias };
                            let alias = AllocView { pool: Some(pool), ..alias };
                            let alias = AllocView { share_src: Some(src), ..alias };
                            match s.pay_alloc(device) {
                                (s, Err(e)) => (s, Err(e)),
                                (s, Ok(_v)) => match s.alloc_ref(src) {
                                    Err(e) => (s, Err(e)),
                                    Ok(a) => {
                                        let s = SimState {
                                            allocs: s.allocs.insert(
                                                src,
                                                AllocView {
                                                    share_opens: opens.saturating_add(1),
                                                    ..a
                                                },
                                            ),
                                            ..s
                                        };
                                        let (s, id) = s.add_alloc(alias);
                                        (s, Ok(id))
                                    },
                                },
                            }
                        },
                    },
                },
            },
        }
    }

    /// Value of [`Sim::is_share_import`].
    pub open spec fn is_share_import(self, id: AllocId) -> Result<bool, SimError> {
        match self.alloc_ref(id) {
            Err(e) => Err(e),
            Ok(a) => Ok(a.live && a.share_src.is_some()),
        }
    }

    /// Value of [`Sim::graph_mem_get`].
    pub open spec fn graph_mem_get(
        self,
        device: DeviceId,
        attr: GraphMemAttr,
    ) -> Result<u64, SimError> {
        match self.graph_mem_used_reserved(device) {
            Err(e) => Err(e),
            Ok((used, reserved)) => match self.gpu_rt(device) {
                Err(e) => Err(e),
                Ok(rt) => match attr {
                    GraphMemAttr::UsedMemCurrent => Ok(used),
                    GraphMemAttr::ReservedMemCurrent => Ok(reserved),
                    GraphMemAttr::UsedMemHigh => Ok(max_u64(rt.graph_used_high, used)),
                    GraphMemAttr::ReservedMemHigh => Ok(max_u64(rt.graph_reserved_high, reserved)),
                },
            },
        }
    }

    /// Effect of [`Sim::graph_mem_set`].
    pub open spec fn graph_mem_set(
        self,
        device: DeviceId,
        attr: GraphMemAttr,
        value: u64,
    ) -> (SimState, Result<(), SimError>) {
        let s = self;
        match s.fail_if_capturing("cannot capture graph mem set") {
            Err(e) => (s, Err(e)),
            Ok(_v) => match s.profile.gpu(device) {
                Err(e) => (s, Err(e)),
                Ok(_gpu) => if value != 0 {
                    (s, Err(invalid("graph mem attribute value")))
                } else {
                    match s.graph_mem_used_reserved(device) {
                        Err(e) => (s, Err(e)),
                        Ok((used, reserved)) => match s.gpu_rt(device) {
                            Err(e) => (s, Err(e)),
                            Ok(_rt) => match attr {
                                GraphMemAttr::UsedMemHigh => match s.gpu_rt(device) {
                                    Err(e) => (s, Err(e)),
                                    Ok(rt) => {
                                        let s = SimState {
                                            gpus: s.gpus.insert(
                                                device,
                                                GpuRtView { graph_used_high: used, ..rt },
                                            ),
                                            ..s
                                        };
                                        let s = s.tick(1);
                                        (s, Ok(()))
                                    },
                                },
                                GraphMemAttr::ReservedMemHigh => match s.gpu_rt(device) {
                                    Err(e) => (s, Err(e)),
                                    Ok(rt) => {
                                        let s = SimState {
                                            gpus: s.gpus.insert(
                                                device,
                                                GpuRtView { graph_reserved_high: reserved, ..rt },
                                            ),
                                            ..s
                                        };
                                        let s = s.tick(1);
                                        (s, Ok(()))
                                    },
                                },
                                _ => (s, Err(invalid("graph mem attribute"))),
                            },
                        },
                    }
                },
            },
        }
    }

    /// Effect of [`Sim::graph_mem_trim`].
    pub open spec fn graph_mem_trim(self, device: DeviceId) -> (SimState, Result<(), SimError>) {
        let s = self;
        match s.fail_if_capturing("cannot capture graph mem trim") {
            Err(e) => (s, Err(e)),
            Ok(_v) => match s.graph_pool(device) {
                Err(e) => (s, Err(e)),
                Ok(pool) => match s.pool_trim_to(pool, 0) {
                    (s, Err(e)) => (s, Err(e)),
                    (s, Ok(_dropped)) => {
                        let s = s.tick(1);
                        (s, Ok(()))
                    },
                },
            },
        }
    }
}

impl Sim {
    /// Give cached bytes of a pool above `min_bytes` back to its device; gives their number.
    pub fn pool_trim_to(&mut self, pool: PoolId, min_bytes: u64) -> (r: Result<u64, SimError>)
        ensures
            final(self)@ == old(self)@.pool_trim_to(pool, min_bytes).0,
            r == old(self)@.pool_trim_to(pool, min_bytes).1,
    {
        self.fail_if_capturing("cannot capture mempool")?;
        let root = self.pool_root(pool)?;
        self.refuse_destroyed_pool(root)?;
        let p = self.pool_ref(root)?;
        let device = p.device;
        let excess: u64 = p.cached.saturating_sub(min_bytes);
        if excess == 0 {
            return Ok(0);
        }
        self.pool_mut(root)?.cached = min_bytes;
        self.refund_hbm(device, excess)?;
        Ok(excess)
    }

    /// Bytes that are free in the pool but charged to the device.
    pub fn pool_cached(&self, pool: PoolId) -> (r: Result<u64, SimError>)
        ensures
            r == self@.pool_cached(pool),
    {
        let root = self.pool_root(pool)?;
        let p = self.pool_ref(root)?;
        Ok(p.cached)
    }

    /// Bytes of the pool's live allocations.
    pub fn pool_live(&self, pool: PoolId) -> (r: Result<u64, SimError>)
        ensures
            r == self@.pool_live(pool),
    {
        let root = self.pool_root(pool)?;
        let p = self.pool_ref(root)?;
        Ok(p.live)
    }

    /// A link and peer access lead from the owner to the device.
    pub(crate) fn reachable_from(
        &self,
        owner: DeviceId,
        device: DeviceId,
    ) -> (r: Result<(), SimError>)
        ensures
            r == self@.reachable_from(owner, device),
    {
        if owner != device {
            let _link = self.profile.link(Some(owner), Some(device))?;
            if !self.peer_access(owner, device) {
                return Err(SimError::PeerDisabled { src: owner, dst: device });
            }
        }
        Ok(())
    }

    /// Let kernels of a device read and write allocations of the pool.
    pub fn pool_set_access(&mut self, pool: PoolId, device: DeviceId) -> (r: Result<(), SimError>)
        ensures
            final(self)@ == old(self)@.pool_set_access(pool, device).0,
            r == old(self)@.pool_set_access(pool, device).1,
    {
        self.fail_if_capturing("cannot capture mempool")?;
        self.refuse_graph_pool(pool)?;
        self.refuse_destroyed_pool(pool)?;
        let _gpu = self.profile.gpu(device)?;
        let p = self.pool_ref(pool)?;
        self.reachable_from(p.device, device)?;
        let q = self.pool_mut(pool)?;
        let _new = q.accessed_by.insert(device);
        self.tick(self.first_alloc_ns());
        Ok(())
    }

    /// Take back what [`Sim::pool_set_access`] allowed.
    pub fn pool_unset_access(&mut self, pool: PoolId, device: DeviceId) -> (r: Result<(), SimError>)
        ensures
            final(self)@ == old(self)@.pool_unset_access(pool, device).0,
            r == old(self)@.pool_unset_access(pool, device).1,
    {
        self.fail_if_capturing("cannot capture mempool")?;
        self.refuse_destroyed_pool(pool)?;
        let _gpu = self.profile.gpu(device)?;
        let q = self.pool_mut(pool)?;
        let _was = q.accessed_by.remove(device);
        self.tick(self.first_alloc_ns());
        Ok(())
    }

    /// Whether a device was given access to a pool.
    pub fn is_pool_accessed_by(&self, pool: PoolId, device: DeviceId) -> (r: Result<bool, SimError>)
        ensures
            r == self@.is_pool_accessed_by(pool, device),
    {
        let p = self.pool_ref(pool)?;
        Ok(p.accessed_by.contains(device))
    }

    /// Access of a device to a pool. The owner has access.
    pub fn pool_get_access(&self, pool: PoolId, device: DeviceId) -> (r: Result<u32, SimError>)
        ensures
            r == self@.pool_get_access(pool, device),
    {
        let _gpu = self.profile.gpu(device)?;
        self.refuse_graph_pool(pool)?;
        self.refuse_destroyed_pool(pool)?;
        let p = self.pool_ref(pool)?;
        if p.device == device || p.accessed_by.contains(device) {
            Ok(MemAccessFlags::PROT_READ_WRITE)
        } else {
            Ok(MemAccessFlags::PROT_NONE)
        }
    }

    /// Whether a pool can be exported.
    pub fn is_pool_shareable(&self, pool: PoolId) -> (r: Result<bool, SimError>)
        ensures
            r == self@.is_pool_shareable(pool),
    {
        let p = self.pool_ref(pool)?;
        Ok(p.shareable)
    }

    /// Whether a pool was imported.
    pub fn is_pool_imported(&self, pool: PoolId) -> (r: Result<bool, SimError>)
        ensures
            r == self@.is_pool_imported(pool),
    {
        let p = self.pool_ref(pool)?;
        Ok(p.share_root.is_some())
    }

    /// Handle under which a pool was exported.
    pub(crate) fn share_handle_of(&self, pool: PoolId) -> (r: Option<ShareableHandleId>)
        ensures
            r == self@.share_handle_of(pool),
    {
        let mut i: usize = 0;
        while i < self.share_handles.len()
            invariant
                i <= order_of(self@.share_handles.dom()).len(),
                forall|j: int| 0 <= j < i ==> !#[trigger] self@.share_handle_of_at(pool, j),
            decreases order_of(self@.share_handles.dom()).len() - i,
        {
            if *self.share_handles.val_at(i) == pool {
                proof {
                    lemma_first_at(
                        order_of(self@.share_handles.dom()).len(),
                        |j: int| self@.share_handle_of_at(pool, j),
                        i as int,
                    );
                }
                return Some(self.share_handles.key_at(i));
            }
            i += 1;
        }
        None
    }

    /// Take the allocation overhead of a device.
    pub(crate) fn pay_alloc(&mut self, device: DeviceId) -> (r: Result<(), SimError>)
        ensures
            final(self)@ == old(self)@.pay_alloc(device).0,
            r == old(self)@.pay_alloc(device).1,
    {
        let gpu = self.profile.gpu(device)?;
        self.tick(max_u64(gpu.alloc_overhead_ns, 1));
        Ok(())
    }

    /// Export a pool. The same pool gives the same handle.
    pub fn pool_export(&mut self, pool: PoolId) -> (r: Result<ShareableHandleId, SimError>)
        ensures
            final(self)@ == old(self)@.pool_export(pool).0,
            r == old(self)@.pool_export(pool).1,
    {
        self.fail_if_capturing("cannot capture mempool")?;
        self.refuse_destroyed_pool(pool)?;
        let p = self.pool_ref(pool)?;
        let device = p.device;
        if !p.shareable {
            return Err(invalid("not shareable"));
        }
        if let Some(h) = self.share_handle_of(pool) {
            return Ok(h);
        }
        self.pay_alloc(device)?;
        let h = ShareableHandleId(self.next.share);
        self.next.share = self.next.share.saturating_add(1);
        self.share_handles.insert(h, pool);
        Ok(h)
    }

    /// Import an exported pool on its device. The exporter holds the counters.
    pub fn pool_import(
        &mut self,
        device: DeviceId,
        handle: ShareableHandleId,
    ) -> (r: Result<PoolId, SimError>)
        ensures
            final(self)@ == old(self)@.pool_import(device, handle).0,
            r == old(self)@.pool_import(device, handle).1,
    {
        self.fail_if_capturing("cannot capture mempool")?;
        let src: PoolId = match self.share_handles.get(handle) {
            Some(p) => *p,
            None => {
                return Err(invalid("unknown shareable"));
            },
        };
        let root = self.pool_root(src)?;
        self.refuse_destroyed_pool(root)?;
        let r = self.pool_ref(root)?;
        if r.device != device {
            return Err(invalid("pool device mismatch"));
        }
        self.pay_alloc(device)?;
        let id = PoolId(self.next.pool);
        self.next.pool = self.next.pool.saturating_add(1);
        let mut p: Pool = Pool::fresh(device);
        p.share_root = Some(root);
        self.pools.insert(id, p);
        Ok(id)
    }

    /// Pool of an allocation whose pointer can be exported.
    pub(crate) fn shareable_ptr_pool(&self, id: AllocId) -> (r: Result<PoolId, SimError>)
        ensures
            r == self@.shareable_ptr_pool(id),
    {
        let a = self.alloc_ref(id)?;
        if !a.live || a.managed || a.vmm || a.host_pinned || a.host_pageable {
            return Err(invalid("not shareable ptr"));
        }
        if a.ipc_src.is_some() || a.share_src.is_some() || a.devices.len() == 0 {
            return Err(invalid("not shareable ptr"));
        }
        match a.pool {
            Some(p) => Ok(p),
            None => Err(invalid("not shareable ptr")),
        }
    }

    /// Handle under which a pointer was exported.
    pub(crate) fn ptr_export_of(&self, id: AllocId) -> (r: Option<PtrExportId>)
        ensures
            r == self@.ptr_export_of(id),
    {
        let mut i: usize = 0;
        while i < self.ptr_exports.len()
            invariant
                i <= order_of(self@.ptr_exports.dom()).len(),
                forall|j: int| 0 <= j < i ==> !#[trigger] self@.ptr_export_of_at(id, j),
            decreases order_of(self@.ptr_exports.dom()).len() - i,
        {
            if *self.ptr_exports.val_at(i) == id {
                proof {
                    lemma_first_at(
                        order_of(self@.ptr_exports.dom()).len(),
                        |j: int| self@.ptr_export_of_at(id, j),
                        i as int,
                    );
                }
                return Some(self.ptr_exports.key_at(i));
            }
            i += 1;
        }
        None
    }

    /// First device that holds the allocation.
    pub(crate) fn holder_of(
        &self,
        id: AllocId,
        why: &'static str,
    ) -> (r: Result<DeviceId, SimError>)
        ensures
            r == self@.holder_of(id, why),
    {
        let a = self.alloc_ref(id)?;
        match a.first_device() {
            Some(d) => Ok(d),
            None => Err(invalid(why)),
        }
    }

    /// Export the pointer of a live allocation of a shareable pool. The same allocation gives the
    /// same handle.
    pub fn pool_export_ptr(&mut self, id: AllocId) -> (r: Result<PtrExportId, SimError>)
        ensures
            final(self)@ == old(self)@.pool_export_ptr(id).0,
            r == old(self)@.pool_export_ptr(id).1,
    {
        self.fail_if_capturing("cannot capture mempool")?;
        let pool = self.shareable_ptr_pool(id)?;
        let device = self.holder_of(id, "not shareable ptr")?;
        let root = self.pool_root(pool)?;
        let r = self.pool_ref(root)?;
        if !r.shareable {
            return Err(invalid("not shareable ptr"));
        }
        if let Some(h) = self.ptr_export_of(id) {
            return Ok(h);
        }
        self.pay_alloc(device)?;
        let h = PtrExportId(self.next.ptr);
        self.next.ptr = self.next.ptr.saturating_add(1);
        self.ptr_exports.insert(h, id);
        Ok(h)
    }

    /// The exported allocation, where an import into `pool` may alias it.
    pub(crate) fn importable_ptr(
        &self,
        pool: PoolId,
        export: PtrExportId,
    ) -> (r: Result<AllocId, SimError>)
        ensures
            r == self@.importable_ptr(pool, export),
    {
        let src: AllocId = match self.ptr_exports.get(export) {
            Some(a) => *a,
            None => {
                return Err(invalid("unknown ptr export"));
            },
        };
        let root = self.pool_root(pool)?;
        let p = self.pool_ref(pool)?;
        if p.share_root.is_none() {
            return Err(invalid("not imported pool"));
        }
        let a = self.alloc_ref(src)?;
        if !a.live {
            return Err(invalid("freed"));
        }
        let src_pool: PoolId = match a.pool {
            Some(x) => x,
            None => {
                return Err(invalid("not shareable ptr"));
            },
        };
        let src_root = self.pool_root(src_pool)?;
        let _d = self.holder_of(src, "not shareable ptr")?;
        if src_root != root {
            return Err(invalid("pool mismatch"));
        }
        Ok(src)
    }

    /// Import an exported pointer into an imported pool. The alias shares the memory.
    pub fn pool_import_ptr(
        &mut self,
        pool: PoolId,
        export: PtrExportId,
    ) -> (r: Result<AllocId, SimError>)
        ensures
            final(self)@ == old(self)@.pool_import_ptr(pool, export).0,
            r == old(self)@.pool_import_ptr(pool, export).1,
    {
        self.fail_if_capturing("cannot capture mempool")?;
        let src = self.importable_ptr(pool, export)?;
        let device = self.holder_of(src, "not shareable ptr")?;
        let a = self.alloc_ref(src)?;
        let opens: u32 = a.share_opens;
        let mut alias: Alloc = Alloc::blank(a.bytes);
        alias.devices = copy_vec(&a.devices);
        alias.live = true;
        alias.pool = Some(pool);
        alias.share_src = Some(src);
        self.pay_alloc(device)?;
        self.alloc_mut(src)?.share_opens = opens.saturating_add(1);
        let id = self.add_alloc(alias);
        Ok(id)
    }

    /// Whether an allocation is a live import of a pool pointer.
    pub fn is_share_import(&self, id: AllocId) -> (r: Result<bool, SimError>)
        ensures
            r == self@.is_share_import(id),
    {
        let a = self.alloc_ref(id)?;
        Ok(a.live && a.share_src.is_some())
    }

    /// An attribute of the graph memory of a device, by name.
    pub fn graph_mem_get(&self, device: DeviceId, attr: GraphMemAttr) -> (r: Result<u64, SimError>)
        ensures
            r == self@.graph_mem_get(device, attr),
    {
        let (used, reserved) = self.graph_mem_used_reserved(device)?;
        let rt = self.gpu_rt(device)?;
        match attr {
            GraphMemAttr::UsedMemCurrent => Ok(used),
            GraphMemAttr::ReservedMemCurrent => Ok(reserved),
            GraphMemAttr::UsedMemHigh => Ok(max_u64(rt.graph_used_high, used)),
            GraphMemAttr::ReservedMemHigh => Ok(max_u64(rt.graph_reserved_high, reserved)),
        }
    }

    /// Set a high-water mark of graph memory back to the current value.
    pub fn graph_mem_set(
        &mut self,
        device: DeviceId,
        attr: GraphMemAttr,
        value: u64,
    ) -> (r: Result<(), SimError>)
        ensures
            final(self)@ == old(self)@.graph_mem_set(device, attr, value).0,
            r == old(self)@.graph_mem_set(device, attr, value).1,
    {
        self.fail_if_capturing("cannot capture graph mem set")?;
        let _gpu = self.profile.gpu(device)?;
        if value != 0 {
            return Err(invalid("graph mem attribute value"));
        }
        let (used, reserved) = self.graph_mem_used_reserved(device)?;
        let _rt = self.gpu_rt(device)?;
        match attr {
            GraphMemAttr::UsedMemHigh => {
                self.gpu_rt_mut(device)?.graph_used_high = used;
                self.tick(1);
                Ok(())
            },
            GraphMemAttr::ReservedMemHigh => {
                self.gpu_rt_mut(device)?.graph_reserved_high = reserved;
                self.tick(1);
                Ok(())
            },
            _ => Err(invalid("graph mem attribute")),
        }
    }

    /// Give unused graph memory back to the device.
    pub fn graph_mem_trim(&mut self, device: DeviceId) -> (r: Result<(), SimError>)
        ensures
            final(self)@ == old(self)@.graph_mem_trim(device).0,
            r == old(self)@.graph_mem_trim(device).1,
    {
        self.fail_if_capturing("cannot capture graph mem trim")?;
        let pool = self.graph_pool(device)?;
        let _dropped = self.pool_trim_to(pool, 0)?;
        self.tick(1);
        Ok(())
    }
}

} // verus!
