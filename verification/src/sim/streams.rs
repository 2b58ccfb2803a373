//! Stream attributes, peer access and compute slots.
use vstd::prelude::*;
use crate::error::{invalid, SimError};
use crate::ids::{DeviceId, Lane, Peer, StreamId};
use crate::num::{max_u16, max_u8, min_u32};
use crate::ops::{
    ClusterDim, ClusterSchedulingPolicy, GpuOp, GpuOpView, MemSyncDomain, MemSyncDomainMap,
    PeerAccessFlags, SharedMemCarveout, StreamAttr, StreamAttrValue, StreamCreateFlags,
    SynchronizationPolicy,
};
use crate::profile::{gpu_index, GpuProfile};
use crate::sim::{has_gpu, Sim, SimState};
use crate::state::{GpuRtView, Op, OpView};

verus! {

impl SimState {
    /// Effect of [`Sim::set_unavailable`].
    pub open spec fn set_unavailable(
        self,
        device: DeviceId,
        yes: bool,
    ) -> (SimState, Result<(), SimError>) {
        let s = self;
        match s.profile.gpu(device) {
            Err(e) => (s, Err(e)),
            Ok(_gpu) => {
                let s = if yes {
                    let s = SimState { unavailable: s.unavailable.insert(device), ..s };
                    s
                } else {
                    let s = SimState { unavailable: s.unavailable.remove(device), ..s };
                    s
                };
                (s, Ok(()))
            },
        }
    }

    /// Value of [`Sim::is_unavailable`].
    pub open spec fn is_unavailable(self, device: DeviceId) -> bool {
        self.unavailable.contains(device)
    }

    /// Effect of [`Sim::fail_next_memcpy`].
    pub open spec fn fail_next_memcpy(self) -> SimState {
        let s = self;
        let s = SimState { fail_next_memcpy: true, ..s };
        s
    }

    /// Effect of [`Sim::set_extra_transfer_ns`].
    pub open spec fn set_extra_transfer_ns(self, ns: u64) -> SimState {
        let s = self;
        let s = SimState { extra_transfer_ns: ns, ..s };
        s
    }

    /// Effect of [`Sim::set_stream_priority`].
    pub open spec fn set_stream_priority(
        self,
        device: DeviceId,
        stream: StreamId,
        priority: i32,
    ) -> (SimState, Result<(), SimError>) {
        let s = self;
        match s.profile.gpu(device) {
            Err(e) => (s, Err(e)),
            Ok(_gpu) => {
                let s = SimState {
                    priority: s.priority.insert(Lane(device, stream), priority),
                    ..s
                };
                (s, Ok(()))
            },
        }
    }

    /// Value of [`Sim::stream_priority`].
    pub open spec fn stream_priority(self, device: DeviceId, stream: StreamId) -> i32 {
        match self.priority.get(Lane(device, stream)) {
            Some(p) => p,
            None => 0,
        }
    }

    /// Value of [`Sim::snap_priority`].
    pub open spec fn snap_priority(self, device: DeviceId, stream: StreamId) -> i32 {
        match self.enq.priority {
            Some(p) => p,
            None => self.stream_priority(device, stream),
        }
    }

    /// Effect of [`Sim::set_stream_sm_permille`].
    pub open spec fn set_stream_sm_permille(
        self,
        device: DeviceId,
        stream: StreamId,
        permille: u16,
    ) -> (SimState, Result<(), SimError>) {
        let s = self;
        match s.profile.gpu(device) {
            Err(e) => (s, Err(e)),
            Ok(_gpu) => if permille == 0 || permille > 1000 {
                (s, Err(invalid("sm permille must be 1..=1000")))
            } else {
                let s = SimState {
                    sm_permille: s.sm_permille.insert(Lane(device, stream), permille),
                    ..s
                };
                (s, Ok(()))
            },
        }
    }

    /// Value of [`Sim::stream_sm_permille`].
    pub open spec fn stream_sm_permille(self, device: DeviceId, stream: StreamId) -> u16 {
        match self.sm_permille.get(Lane(device, stream)) {
            Some(p) => max_u16(p, 1),
            None => 1000,
        }
    }

    /// Value of [`Sim::mem_sync_domain_count`].
    pub open spec fn mem_sync_domain_count(self, device: DeviceId) -> Result<u8, SimError> {
        match self.profile.gpu(device) {
            Err(e) => Err(e),
            Ok(gpu) => Ok(max_u8(gpu.mem_sync_domain_count, 1)),
        }
    }

    /// Value of [`Sim::validate_mem_sync_map`].
    pub open spec fn validate_mem_sync_map(
        self,
        device: DeviceId,
        map: MemSyncDomainMap,
    ) -> Result<(), SimError> {
        match self.mem_sync_domain_count(device) {
            Err(e) => Err(e),
            Ok(count) => if map.default >= count || map.remote >= count {
                Err(invalid("mem sync domain"))
            } else {
                Ok(())
            },
        }
    }

    /// Effect of [`Sim::set_stream_mem_sync_domain`].
    pub open spec fn set_stream_mem_sync_domain(
        self,
        device: DeviceId,
        stream: StreamId,
        domain: MemSyncDomain,
    ) -> (SimState, Result<(), SimError>) {
        let s = self;
        match s.profile.gpu(device) {
            Err(e) => (s, Err(e)),
            Ok(_gpu) => {
                let s = SimState {
                    stream_mem_sync_domain: s.stream_mem_sync_domain.insert(
                        Lane(device, stream),
                        domain,
                    ),
                    ..s
                };
                (s, Ok(()))
            },
        }
    }

    /// Value of [`Sim::stream_mem_sync_domain`].
    pub open spec fn stream_mem_sync_domain(
        self,
        device: DeviceId,
        stream: StreamId,
    ) -> MemSyncDomain {
        match self.stream_mem_sync_domain.get(Lane(device, stream)) {
            Some(d) => d,
            None => MemSyncDomain::Default,
        }
    }

    /// Effect of [`Sim::set_stream_mem_sync_domain_map`].
    pub open spec fn set_stream_mem_sync_domain_map(
        self,
        device: DeviceId,
        stream: StreamId,
        map: MemSyncDomainMap,
    ) -> (SimState, Result<(), SimError>) {
        let s = self;
        match s.validate_mem_sync_map(device, map) {
            Err(e) => (s, Err(e)),
            Ok(_v) => {
                let s = SimState {
                    stream_mem_sync_map: s.stream_mem_sync_map.insert(Lane(device, stream), map),
                    ..s
                };
                (s, Ok(()))
            },
        }
    }

    /// Value of [`Sim::stream_mem_sync_domain_map`].
    pub open spec fn stream_mem_sync_domain_map(
        self,
        device: DeviceId,
        stream: StreamId,
    ) -> Result<MemSyncDomainMap, SimError> {
        match self.stream_mem_sync_map.get(Lane(device, stream)) {
            Some(map) => Ok(map),
            _ => match self.mem_sync_domain_count(device) {
                Err(e) => Err(e),
                Ok(count) => Ok(MemSyncDomainMap::identity(count)),
            },
        }
    }

    /// Effect of [`Sim::set_stream_sync_policy`].
    pub open spec fn set_stream_sync_policy(
        self,
        device: DeviceId,
        stream: StreamId,
        policy: SynchronizationPolicy,
    ) -> (SimState, Result<(), SimError>) {
        let s = self;
        match s.profile.gpu(device) {
            Err(e) => (s, Err(e)),
            Ok(_gpu) => {
                let s = SimState {
                    stream_sync_policy: s.stream_sync_policy.insert(Lane(device, stream), policy),
                    ..s
                };
                (s, Ok(()))
            },
        }
    }

    /// Value of [`Sim::stream_sync_policy`].
    pub open spec fn stream_sync_policy(
        self,
        device: DeviceId,
        stream: StreamId,
    ) -> SynchronizationPolicy {
        match self.stream_sync_policy.get(Lane(device, stream)) {
            Some(p) => p,
            None => SynchronizationPolicy::Auto,
        }
    }

    /// Effect of [`Sim::set_stream_nvlink_util_centric`].
    pub open spec fn set_stream_nvlink_util_centric(
        self,
        device: DeviceId,
        stream: StreamId,
        enabled: bool,
    ) -> (SimState, Result<(), SimError>) {
        let s = self;
        match s.profile.gpu(device) {
            Err(e) => (s, Err(e)),
            Ok(_gpu) => {
                let s = if enabled {
                    let s = SimState {
                        stream_nvlink_util_centric: s.stream_nvlink_util_centric.insert(
                            Lane(device, stream),
                        ),
                        ..s
                    };
                    s
                } else {
                    let s = SimState {
                        stream_nvlink_util_centric: s.stream_nvlink_util_centric.remove(
                            Lane(device, stream),
                        ),
                        ..s
                    };
                    s
                };
                (s, Ok(()))
            },
        }
    }

    /// Value of [`Sim::stream_nvlink_util_centric`].
    pub open spec fn stream_nvlink_util_centric(self, device: DeviceId, stream: StreamId) -> bool {
        self.stream_nvlink_util_centric.contains(Lane(device, stream))
    }

    /// Effect of [`Sim::copy_stream_sm`].
    pub open spec fn copy_stream_sm(
        self,
        device: DeviceId,
        dst: StreamId,
        src: StreamId,
    ) -> (SimState, Result<(), SimError>) {
        let s = self;
        match s.sm_permille.get(Lane(device, src)) {
            Some(sm) => {
                let permille = sm;
                s.set_stream_sm_permille(device, dst, permille)
            },
            None => {
                let s = SimState { sm_permille: s.sm_permille.remove(Lane(device, dst)), ..s };
                (s, Ok(()))
            },
        }
    }

    /// Effect of [`Sim::copy_stream_domain`].
    pub open spec fn copy_stream_domain(
        self,
        device: DeviceId,
        dst: StreamId,
        src: StreamId,
    ) -> SimState {
        let s = self;
        match s.stream_mem_sync_domain.get(Lane(device, src)) {
            Some(d) => {
                let domain = d;
                let s = SimState {
                    stream_mem_sync_domain: s.stream_mem_sync_domain.insert(
                        Lane(device, dst),
                        domain,
                    ),
                    ..s
                };
                s
            },
            None => {
                let s = SimState {
                    stream_mem_sync_domain: s.stream_mem_sync_domain.remove(Lane(device, dst)),
                    ..s
                };
                s
            },
        }
    }

    /// Effect of [`Sim::copy_stream_map`].
    pub open spec fn copy_stream_map(
        self,
        device: DeviceId,
        dst: StreamId,
        src: StreamId,
    ) -> (SimState, Result<(), SimError>) {
        let s = self;
        match s.stream_mem_sync_map.get(Lane(device, src)) {
            Some(m) => {
                let map = m;
                s.set_stream_mem_sync_domain_map(device, dst, map)
            },
            None => {
                let s = SimState {
                    stream_mem_sync_map: s.stream_mem_sync_map.remove(Lane(device, dst)),
                    ..s
                };
                (s, Ok(()))
            },
        }
    }

    /// Effect of [`Sim::copy_stream_policy`].
    pub open spec fn copy_stream_policy(
        self,
        device: DeviceId,
        dst: StreamId,
        src: StreamId,
    ) -> SimState {
        let s = self;
        match s.stream_sync_policy.get(Lane(device, src)) {
            Some(p) => {
                let policy = p;
                let s = SimState {
                    stream_sync_policy: s.stream_sync_policy.insert(Lane(device, dst), policy),
                    ..s
                };
                s
            },
            None => {
                let s = SimState {
                    stream_sync_policy: s.stream_sync_policy.remove(Lane(device, dst)),
                    ..s
                };
                s
            },
        }
    }

    /// Effect of [`Sim::stream_copy_attributes`].
    pub open spec fn stream_copy_attributes(
        self,
        dst_device: DeviceId,
        dst: StreamId,
        src_device: DeviceId,
        src: StreamId,
    ) -> (SimState, Result<(), SimError>) {
        let s = self;
        if dst_device != src_device {
            (s, Err(invalid("stream attribute device mismatch")))
        } else {
            match s.profile.gpu(src_device) {
                Err(e) => (s, Err(e)),
                Ok(_gpu) => {
                    let pri = s.stream_priority(src_device, src);
                    let nvlink = s.stream_nvlink_util_centric(src_device, src);
                    match s.set_stream_priority(dst_device, dst, pri) {
                        (s, Err(e)) => (s, Err(e)),
                        (s, Ok(_v)) => match s.copy_stream_sm(src_device, dst, src) {
                            (s, Err(e)) => (s, Err(e)),
                            (s, Ok(_v)) => {
                                let s = s.copy_stream_domain(src_device, dst, src);
                                match s.copy_stream_map(src_device, dst, src) {
                                    (s, Err(e)) => (s, Err(e)),
                                    (s, Ok(_v)) => {
                                        let s = s.copy_stream_policy(src_device, dst, src);
                                        s.set_stream_nvlink_util_centric(dst_device, dst, nvlink)
                                    },
                                }
                            },
                        },
                    }
                },
            }
        }
    }

    /// Effect of [`Sim::set_legacy_null_stream`].
    pub open spec fn set_legacy_null_stream(self, yes: bool) -> SimState {
        let s = self;
        let s = SimState { legacy_null_stream: yes, ..s };
        s
    }

    /// Value of [`Sim::legacy_null_stream`].
    pub open spec fn legacy_null_stream(self) -> bool {
        self.legacy_null_stream
    }

    /// Effect of [`Sim::set_stream_blocking`].
    pub open spec fn set_stream_blocking(
        self,
        device: DeviceId,
        stream: StreamId,
        yes: bool,
    ) -> (SimState, Result<(), SimError>) {
        let s = self;
        match s.profile.gpu(device) {
            Err(e) => (s, Err(e)),
            Ok(_gpu) => if stream.is_null() {
                (s, Err(invalid("null stream uses set_legacy_null_stream")))
            } else {
                let s = if yes {
                    let s = SimState { blocking: s.blocking.insert(Lane(device, stream)), ..s };
                    s
                } else {
                    let s = SimState { blocking: s.blocking.remove(Lane(device, stream)), ..s };
                    s
                };
                (s, Ok(()))
            },
        }
    }

    /// Effect of [`Sim::stream_create_with_flags`].
    pub open spec fn stream_create_with_flags(
        self,
        device: DeviceId,
        stream: StreamId,
        flags: u32,
    ) -> (SimState, Result<(), SimError>) {
        let s = self;
        match s.fail_if_capturing("cannot capture stream create") {
            Err(e) => (s, Err(e)),
            Ok(_v) => if flags & !StreamCreateFlags::NON_BLOCKING != 0 {
                (s, Err(invalid("stream create flags")))
            } else {
                s.set_stream_blocking(device, stream, flags & StreamCreateFlags::NON_BLOCKING == 0)
            },
        }
    }

    /// Effect of [`Sim::stream_create_with_priority`].
    pub open spec fn stream_create_with_priority(
        self,
        device: DeviceId,
        stream: StreamId,
        flags: u32,
        priority: i32,
    ) -> (SimState, Result<(), SimError>) {
        let s = self;
        match s.stream_create_with_flags(device, stream, flags) {
            (s, Err(e)) => (s, Err(e)),
            (s, Ok(_v)) => s.set_stream_priority(device, stream, priority),
        }
    }

    /// Value of [`Sim::stream_is_blocking`].
    pub open spec fn stream_is_blocking(self, device: DeviceId, stream: StreamId) -> bool {
        self.blocking.contains(Lane(device, stream))
    }

    /// Value of [`Sim::stream_get_flags`].
    pub open spec fn stream_get_flags(
        self,
        device: DeviceId,
        stream: StreamId,
    ) -> Result<u32, SimError> {
        match self.profile.gpu(device) {
            Err(e) => Err(e),
            Ok(_gpu) => {
                let blocking = if stream.is_null() {
                    self.legacy_null_stream
                } else {
                    self.stream_is_blocking(device, stream)
                };
                Ok(if blocking {
                    0
                } else {
                    1
                })
            },
        }
    }

    /// Value of [`Sim::stream_get_priority`].
    pub open spec fn stream_get_priority(
        self,
        device: DeviceId,
        stream: StreamId,
    ) -> Result<i32, SimError> {
        match self.profile.gpu(device) {
            Err(e) => Err(e),
            Ok(_gpu) => Ok(self.stream_priority(device, stream)),
        }
    }

    /// Value of [`Sim::stream_get_id`].
    pub open spec fn stream_get_id(
        self,
        device: DeviceId,
        stream: StreamId,
    ) -> Result<u64, SimError> {
        match self.profile.gpu(device) {
            Err(e) => Err(e),
            Ok(_gpu) => Ok(
                ((device.0 as u64) << 16).saturating_add(stream.0 as u64).saturating_add(1),
            ),
        }
    }

    /// Value of [`Sim::stream_get_attribute`].
    pub open spec fn stream_get_attribute(
        self,
        device: DeviceId,
        stream: StreamId,
        attr: StreamAttr,
    ) -> Result<StreamAttrValue, SimError> {
        match self.profile.gpu(device) {
            Err(e) => Err(e),
            Ok(_gpu) => match attr {
                StreamAttr::Priority => Ok(
                    StreamAttrValue::Priority(self.stream_priority(device, stream)),
                ),
                StreamAttr::SynchronizationPolicy => Ok(
                    StreamAttrValue::SynchronizationPolicy(self.stream_sync_policy(device, stream)),
                ),
                StreamAttr::MemSyncDomain => Ok(
                    StreamAttrValue::MemSyncDomain(self.stream_mem_sync_domain(device, stream)),
                ),
                StreamAttr::MemSyncDomainMap => match self.stream_mem_sync_domain_map(device, stream) {
                    Err(e) => Err(e),
                    Ok(map) => Ok(StreamAttrValue::MemSyncDomainMap(map)),
                },
                StreamAttr::NvlinkUtilCentric => Ok(
                    StreamAttrValue::NvlinkUtilCentric(
                        self.stream_nvlink_util_centric(device, stream),
                    ),
                ),
            },
        }
    }

    /// Effect of [`Sim::stream_set_attribute`].
    pub open spec fn stream_set_attribute(
        self,
        device: DeviceId,
        stream: StreamId,
        attr: StreamAttr,
        value: StreamAttrValue,
    ) -> (SimState, Result<(), SimError>) {
        let s = self;
        match (attr, value) {
            (
                StreamAttr::Priority,
                StreamAttrValue::Priority(p),
            ) => s.set_stream_priority(device, stream, p),
            (
                StreamAttr::SynchronizationPolicy,
                StreamAttrValue::SynchronizationPolicy(policy),
            ) => s.set_stream_sync_policy(device, stream, policy),
            (
                StreamAttr::MemSyncDomain,
                StreamAttrValue::MemSyncDomain(domain),
            ) => s.set_stream_mem_sync_domain(device, stream, domain),
            (
                StreamAttr::MemSyncDomainMap,
                StreamAttrValue::MemSyncDomainMap(map),
            ) => s.set_stream_mem_sync_domain_map(device, stream, map),
            (
                StreamAttr::NvlinkUtilCentric,
                StreamAttrValue::NvlinkUtilCentric(yes),
            ) => s.set_stream_nvlink_util_centric(device, stream, yes),
            _ => (s, Err(invalid("stream attr"))),
        }
    }
}

impl Sim {
    /// Refuse new work, and the start of queued work, on `device`.
    pub fn set_unavailable(&mut self, device: DeviceId, yes: bool) -> (r: Result<(), SimError>)
        ensures
            final(self)@ == old(self)@.set_unavailable(device, yes).0,
            r == old(self)@.set_unavailable(device, yes).1,
    {
        let _gpu = self.profile.gpu(device)?;
        if yes {
            let _was = self.unavailable.insert(device);
        } else {
            let _was = self.unavailable.remove(device);
        }
        Ok(())
    }

    /// Whether `device` refuses work.
    pub fn is_unavailable(&self, device: DeviceId) -> (r: bool)
        ensures
            r == self@.is_unavailable(device),
    {
        self.unavailable.contains(device)
    }

    /// The next copy that starts fails with [`SimError::TransferFailed`].
    pub fn fail_next_memcpy(&mut self)
        ensures
            final(self)@ == old(self)@.fail_next_memcpy(),
    {
        self.fail_next_memcpy = true;
    }

    /// Extra nanoseconds of every copy and reduction.
    pub fn set_extra_transfer_ns(&mut self, ns: u64)
        ensures
            final(self)@ == old(self)@.set_extra_transfer_ns(ns),
    {
        self.extra_transfer_ns = ns;
    }

    /// Stream priority. Higher runs first when several operations are ready for the same resource.
    pub fn set_stream_priority(
        &mut self,
        device: DeviceId,
        stream: StreamId,
        priority: i32,
    ) -> (r: Result<(), SimError>)
        ensures
            final(self)@ == old(self)@.set_stream_priority(device, stream, priority).0,
            r == old(self)@.set_stream_priority(device, stream, priority).1,
    {
        let _gpu = self.profile.gpu(device)?;
        self.priority.insert(Lane(device, stream), priority);
        Ok(())
    }

    /// Current priority of the stream, or `0` if unset.
    pub fn stream_priority(&self, device: DeviceId, stream: StreamId) -> (r: i32)
        ensures
            r == self@.stream_priority(device, stream),
    {
        match self.priority.get(Lane(device, stream)) {
            Some(p) => *p,
            None => 0,
        }
    }

    /// Priority of the next submission: the launch attribute if set, else the stream.
    pub(crate) fn snap_priority(&self, device: DeviceId, stream: StreamId) -> (r: i32)
        ensures
            r == self@.snap_priority(device, stream),
    {
        match self.enq.priority {
            Some(p) => p,
            None => self.stream_priority(device, stream),
        }
    }

    /// Reserve a share of the multiprocessors for the stream, in permille of peak.
    ///
    /// Compute-bound kernels scale as `1000 / permille`; memory-bound kernels keep full HBM. `0`
    /// and values above `1000` are [`SimError::Invalid`].
    pub fn set_stream_sm_permille(
        &mut self,
        device: DeviceId,
        stream: StreamId,
        permille: u16,
    ) -> (r: Result<(), SimError>)
        ensures
            final(self)@ == old(self)@.set_stream_sm_permille(device, stream, permille).0,
            r == old(self)@.set_stream_sm_permille(device, stream, permille).1,
    {
        let _gpu = self.profile.gpu(device)?;
        if permille == 0 || permille > 1000 {
            return Err(invalid("sm permille must be 1..=1000"));
        }
        self.sm_permille.insert(Lane(device, stream), permille);
        Ok(())
    }

    /// Share of the stream, or `1000` if unset.
    pub fn stream_sm_permille(&self, device: DeviceId, stream: StreamId) -> (r: u16)
        ensures
            r == self@.stream_sm_permille(device, stream),
    {
        match self.sm_permille.get(Lane(device, stream)) {
            Some(p) => max_u16(*p, 1),
            None => 1000,
        }
    }

    /// Number of physical memory-synchronization domains.
    pub fn mem_sync_domain_count(&self, device: DeviceId) -> (r: Result<u8, SimError>)
        ensures
            r == self@.mem_sync_domain_count(device),
    {
        let gpu = self.profile.gpu(device)?;
        Ok(max_u8(gpu.mem_sync_domain_count, 1))
    }

    pub(crate) fn validate_mem_sync_map(
        &self,
        device: DeviceId,
        map: MemSyncDomainMap,
    ) -> (r: Result<(), SimError>)
        ensures
            r == self@.validate_mem_sync_map(device, map),
    {
        let count: u8 = self.mem_sync_domain_count(device)?;
        if map.default >= count || map.remote >= count {
            return Err(invalid("mem sync domain"));
        }
        Ok(())
    }

    /// Memory-synchronization domain of the stream.
    pub fn set_stream_mem_sync_domain(
        &mut self,
        device: DeviceId,
        stream: StreamId,
        domain: MemSyncDomain,
    ) -> (r: Result<(), SimError>)
        ensures
            final(self)@ == old(self)@.set_stream_mem_sync_domain(device, stream, domain).0,
            r == old(self)@.set_stream_mem_sync_domain(device, stream, domain).1,
    {
        let _gpu = self.profile.gpu(device)?;
        self.stream_mem_sync_domain.insert(Lane(device, stream), domain);
        Ok(())
    }

    /// Domain of the stream, or [`MemSyncDomain::Default`] if unset.
    pub fn stream_mem_sync_domain(&self, device: DeviceId, stream: StreamId) -> (r: MemSyncDomain)
        ensures
            r == self@.stream_mem_sync_domain(device, stream),
    {
        match self.stream_mem_sync_domain.get(Lane(device, stream)) {
            Some(d) => *d,
            None => MemSyncDomain::Default,
        }
    }

    /// Domain map of the stream. Each physical domain must exist on the device.
    pub fn set_stream_mem_sync_domain_map(
        &mut self,
        device: DeviceId,
        stream: StreamId,
        map: MemSyncDomainMap,
    ) -> (r: Result<(), SimError>)
        ensures
            final(self)@ == old(self)@.set_stream_mem_sync_domain_map(device, stream, map).0,
            r == old(self)@.set_stream_mem_sync_domain_map(device, stream, map).1,
    {
        self.validate_mem_sync_map(device, map)?;
        self.stream_mem_sync_map.insert(Lane(device, stream), map);
        Ok(())
    }

    /// Domain map of the stream, or the identity for the domain count of the device.
    pub fn stream_mem_sync_domain_map(
        &self,
        device: DeviceId,
        stream: StreamId,
    ) -> (r: Result<MemSyncDomainMap, SimError>)
        ensures
            r == self@.stream_mem_sync_domain_map(device, stream),
    {
        if let Some(map) = self.stream_mem_sync_map.get(Lane(device, stream)) {
            return Ok(*map);
        }
        let count: u8 = self.mem_sync_domain_count(device)?;
        Ok(MemSyncDomainMap::identity(count))
    }

    /// How the host waits on the stream; it taxes stream and event synchronization.
    pub fn set_stream_sync_policy(
        &mut self,
        device: DeviceId,
        stream: StreamId,
        policy: SynchronizationPolicy,
    ) -> (r: Result<(), SimError>)
        ensures
            final(self)@ == old(self)@.set_stream_sync_policy(device, stream, policy).0,
            r == old(self)@.set_stream_sync_policy(device, stream, policy).1,
    {
        let _gpu = self.profile.gpu(device)?;
        self.stream_sync_policy.insert(Lane(device, stream), policy);
        Ok(())
    }

    /// Policy of the stream, or [`SynchronizationPolicy::Auto`] if unset.
    pub fn stream_sync_policy(
        &self,
        device: DeviceId,
        stream: StreamId,
    ) -> (r: SynchronizationPolicy)
        ensures
            r == self@.stream_sync_policy(device, stream),
    {
        match self.stream_sync_policy.get(Lane(device, stream)) {
            Some(p) => *p,
            None => SynchronizationPolicy::Auto,
        }
    }

    /// Whether kernels of the stream are scheduled for NVLink use.
    pub fn set_stream_nvlink_util_centric(
        &mut self,
        device: DeviceId,
        stream: StreamId,
        enabled: bool,
    ) -> (r: Result<(), SimError>)
        ensures
            final(self)@ == old(self)@.set_stream_nvlink_util_centric(device, stream, enabled).0,
            r == old(self)@.set_stream_nvlink_util_centric(device, stream, enabled).1,
    {
        let _gpu = self.profile.gpu(device)?;
        if enabled {
            let _ins = self.stream_nvlink_util_centric.insert(Lane(device, stream));
        } else {
            let _rm = self.stream_nvlink_util_centric.remove(Lane(device, stream));
        }
        Ok(())
    }

    pub fn stream_nvlink_util_centric(&self, device: DeviceId, stream: StreamId) -> (r: bool)
        ensures
            r == self@.stream_nvlink_util_centric(device, stream),
    {
        self.stream_nvlink_util_centric.contains(Lane(device, stream))
    }

    pub(crate) fn copy_stream_sm(
        &mut self,
        device: DeviceId,
        dst: StreamId,
        src: StreamId,
    ) -> (r: Result<(), SimError>)
        ensures
            final(self)@ == old(self)@.copy_stream_sm(device, dst, src).0,
            r == old(self)@.copy_stream_sm(device, dst, src).1,
    {
        match self.sm_permille.get(Lane(device, src)) {
            Some(sm) => {
                let permille: u16 = *sm;
                self.set_stream_sm_permille(device, dst, permille)
            },
            None => {
                let _gone = self.sm_permille.remove(Lane(device, dst));
                Ok(())
            },
        }
    }

    pub(crate) fn copy_stream_domain(&mut self, device: DeviceId, dst: StreamId, src: StreamId)
        ensures
            final(self)@ == old(self)@.copy_stream_domain(device, dst, src),
    {
        match self.stream_mem_sync_domain.get(Lane(device, src)) {
            Some(d) => {
                let domain = *d;
                self.stream_mem_sync_domain.insert(Lane(device, dst), domain);
            },
            None => {
                let _gone = self.stream_mem_sync_domain.remove(Lane(device, dst));
            },
        }
    }

    pub(crate) fn copy_stream_map(
        &mut self,
        device: DeviceId,
        dst: StreamId,
        src: StreamId,
    ) -> (r: Result<(), SimError>)
        ensures
            final(self)@ == old(self)@.copy_stream_map(device, dst, src).0,
            r == old(self)@.copy_stream_map(device, dst, src).1,
    {
        match self.stream_mem_sync_map.get(Lane(device, src)) {
            Some(m) => {
                let map = *m;
                self.set_stream_mem_sync_domain_map(device, dst, map)
            },
            None => {
                let _gone = self.stream_mem_sync_map.remove(Lane(device, dst));
                Ok(())
            },
        }
    }

    pub(crate) fn copy_stream_policy(&mut self, device: DeviceId, dst: StreamId, src: StreamId)
        ensures
            final(self)@ == old(self)@.copy_stream_policy(device, dst, src),
    {
        match self.stream_sync_policy.get(Lane(device, src)) {
            Some(p) => {
                let policy = *p;
                self.stream_sync_policy.insert(Lane(device, dst), policy);
            },
            None => {
                let _gone = self.stream_sync_policy.remove(Lane(device, dst));
            },
        }
    }

    /// Copy priority, multiprocessor share, memory-synchronization domain and map, synchronization
    /// policy and NVLink scheduling from `src` to `dst` on one device.
    pub fn stream_copy_attributes(
        &mut self,
        dst_device: DeviceId,
        dst: StreamId,
        src_device: DeviceId,
        src: StreamId,
    ) -> (r: Result<(), SimError>)
        ensures
            final(self)@ == old(self)@.stream_copy_attributes(dst_device, dst, src_device, src).0,
            r == old(self)@.stream_copy_attributes(dst_device, dst, src_device, src).1,
    {
        if dst_device != src_device {
            return Err(invalid("stream attribute device mismatch"));
        }
        let _gpu = self.profile.gpu(src_device)?;
        let pri: i32 = self.stream_priority(src_device, src);
        let nvlink: bool = self.stream_nvlink_util_centric(src_device, src);
        self.set_stream_priority(dst_device, dst, pri)?;
        self.copy_stream_sm(src_device, dst, src)?;
        self.copy_stream_domain(src_device, dst, src);
        self.copy_stream_map(src_device, dst, src)?;
        self.copy_stream_policy(src_device, dst, src);
        self.set_stream_nvlink_util_centric(dst_device, dst, nvlink)
    }

    /// The null stream serializes with every other stream of its device.
    pub fn set_legacy_null_stream(&mut self, yes: bool)
        ensures
            final(self)@ == old(self)@.set_legacy_null_stream(yes),
    {
        self.legacy_null_stream = yes;
    }

    pub fn legacy_null_stream(&self) -> (r: bool)
        ensures
            r == self@.legacy_null_stream(),
    {
        self.legacy_null_stream
    }

    /// Blocking streams serialize with the null stream even when the legacy null stream is off.
    pub fn set_stream_blocking(
        &mut self,
        device: DeviceId,
        stream: StreamId,
        yes: bool,
    ) -> (r: Result<(), SimError>)
        ensures
            final(self)@ == old(self)@.set_stream_blocking(device, stream, yes).0,
            r == old(self)@.set_stream_blocking(device, stream, yes).1,
    {
        let _gpu = self.profile.gpu(device)?;
        if stream.is_null() {
            return Err(invalid("null stream uses set_legacy_null_stream"));
        }
        if yes {
            let _was = self.blocking.insert(Lane(device, stream));
        } else {
            let _was = self.blocking.remove(Lane(device, stream));
        }
        Ok(())
    }

    /// `cudaStreamCreateWithFlags`. Capture cannot include it.
    pub fn stream_create_with_flags(
        &mut self,
        device: DeviceId,
        stream: StreamId,
        flags: u32,
    ) -> (r: Result<(), SimError>)
        ensures
            final(self)@ == old(self)@.stream_create_with_flags(device, stream, flags).0,
            r == old(self)@.stream_create_with_flags(device, stream, flags).1,
    {
        self.fail_if_capturing("cannot capture stream create")?;
        if flags & !StreamCreateFlags::NON_BLOCKING != 0 {
            return Err(invalid("stream create flags"));
        }
        self.set_stream_blocking(device, stream, flags & StreamCreateFlags::NON_BLOCKING == 0)
    }

    /// `cudaStreamCreateWithPriority`. Capture cannot include it.
    pub fn stream_create_with_priority(
        &mut self,
        device: DeviceId,
        stream: StreamId,
        flags: u32,
        priority: i32,
    ) -> (r: Result<(), SimError>)
        ensures
            final(self)@ == old(self)@.stream_create_with_priority(
                device,
                stream,
                flags,
                priority,
            ).0,
            r == old(self)@.stream_create_with_priority(device, stream, flags, priority).1,
    {
        self.stream_create_with_flags(device, stream, flags)?;
        self.set_stream_priority(device, stream, priority)
    }

    pub fn stream_is_blocking(&self, device: DeviceId, stream: StreamId) -> (r: bool)
        ensures
            r == self@.stream_is_blocking(device, stream),
    {
        self.blocking.contains(Lane(device, stream))
    }

    /// `0` is a blocking stream, `1` a non-blocking one.
    pub fn stream_get_flags(&self, device: DeviceId, stream: StreamId) -> (r: Result<u32, SimError>)
        ensures
            r == self@.stream_get_flags(device, stream),
    {
        let _gpu = self.profile.gpu(device)?;
        let blocking: bool = if stream.is_null() {
            self.legacy_null_stream
        } else {
            self.stream_is_blocking(device, stream)
        };
        Ok(if blocking { 0 } else { 1 })
    }

    pub fn stream_get_priority(
        &self,
        device: DeviceId,
        stream: StreamId,
    ) -> (r: Result<i32, SimError>)
        ensures
            r == self@.stream_get_priority(device, stream),
    {
        let _gpu = self.profile.gpu(device)?;
        Ok(self.stream_priority(device, stream))
    }

    /// Number that no other stream of the node has.
    pub fn stream_get_id(&self, device: DeviceId, stream: StreamId) -> (r: Result<u64, SimError>)
        ensures
            r == self@.stream_get_id(device, stream),
    {
        let _gpu = self.profile.gpu(device)?;
        Ok(((device.0 as u64) << 16).saturating_add(stream.0 as u64).saturating_add(1))
    }

    /// `cudaStreamGetAttribute`.
    pub fn stream_get_attribute(
        &self,
        device: DeviceId,
        stream: StreamId,
        attr: StreamAttr,
    ) -> (r: Result<StreamAttrValue, SimError>)
        ensures
            r == self@.stream_get_attribute(device, stream, attr),
    {
        let _gpu = self.profile.gpu(device)?;
        match attr {
            StreamAttr::Priority => Ok(
                StreamAttrValue::Priority(self.stream_priority(device, stream)),
            ),
            StreamAttr::SynchronizationPolicy => {
                Ok(StreamAttrValue::SynchronizationPolicy(self.stream_sync_policy(device, stream)))
            },
            StreamAttr::MemSyncDomain => {
                Ok(StreamAttrValue::MemSyncDomain(self.stream_mem_sync_domain(device, stream)))
            },
            StreamAttr::MemSyncDomainMap => {
                let map = self.stream_mem_sync_domain_map(device, stream)?;
                Ok(StreamAttrValue::MemSyncDomainMap(map))
            },
            StreamAttr::NvlinkUtilCentric => {
                Ok(
                    StreamAttrValue::NvlinkUtilCentric(
                        self.stream_nvlink_util_centric(device, stream),
                    ),
                )
            },
        }
    }

    /// `cudaStreamSetAttribute`. A value of another attribute is [`SimError::Invalid`].
    pub fn stream_set_attribute(
        &mut self,
        device: DeviceId,
        stream: StreamId,
        attr: StreamAttr,
        value: StreamAttrValue,
    ) -> (r: Result<(), SimError>)
        ensures
            final(self)@ == old(self)@.stream_set_attribute(device, stream, attr, value).0,
            r == old(self)@.stream_set_attribute(device, stream, attr, value).1,
    {
        match (attr, value) {
            (
                StreamAttr::Priority,
                StreamAttrValue::Priority(p),
            ) => self.set_stream_priority(device, stream, p),
            (StreamAttr::SynchronizationPolicy, StreamAttrValue::SynchronizationPolicy(policy)) => {
                self.set_stream_sync_policy(device, stream, policy)
            },
            (StreamAttr::MemSyncDomain, StreamAttrValue::MemSyncDomain(domain)) => {
                self.set_stream_mem_sync_domain(device, stream, domain)
            },
            (StreamAttr::MemSyncDomainMap, StreamAttrValue::MemSyncDomainMap(map)) => {
                self.set_stream_mem_sync_domain_map(device, stream, map)
            },
            (StreamAttr::NvlinkUtilCentric, StreamAttrValue::NvlinkUtilCentric(yes)) => {
                self.set_stream_nvlink_util_centric(device, stream, yes)
            },
            _ => Err(invalid("stream attr")),
        }
    }
}

/// The streams `1 .. n` of every GPU.
pub open spec fn created_streams(gpus: Seq<GpuProfile>, n: u8) -> Set<Lane> {
    Set::new(|l: Lane| has_gpu(gpus, l.0) && 1 <= l.1.0 < n)
}

/// `m` with the streams `1 .. n` of every GPU set by `f`.
pub open spec fn with_created<V>(
    m: Map<Lane, V>,
    gpus: Seq<GpuProfile>,
    n: u8,
    f: spec_fn(Lane) -> V,
) -> Map<Lane, V> {
    m.union_prefer_right(Map::new(|l: Lane| created_streams(gpus, n).contains(l), f))
}

proof fn lemma_gpu_found(gpus: Seq<GpuProfile>, i: int, from: int)
    requires
        0 <= from <= i < gpus.len(),
    ensures
        gpu_index(gpus, gpus[i].id, from) is Some,
    decreases i - from,
{
    if from < i && gpus[from].id != gpus[i].id {
        lemma_gpu_found(gpus, i, from + 1);
    }
}

proof fn lemma_created_step(gpus: Seq<GpuProfile>, a: Seq<GpuProfile>, b: Seq<GpuProfile>, n: u8)
    requires
        a.len() < gpus.len(),
        a == gpus.take(a.len() as int),
        b == gpus.take(a.len() as int + 1),
    ensures
        forall|l: Lane| #[trigger]
            created_streams(b, n).contains(l) <==> (created_streams(a, n).contains(l) || (l.0
                == gpus[a.len() as int].id && 1 <= l.1.0 < n)),
{
    let i = a.len() as int;
    assert forall|d: DeviceId| #[trigger] has_gpu(b, d) <==> (d == gpus[i].id || has_gpu(a, d)) by {
        if has_gpu(a, d) {
            let j = choose|j: int| 0 <= j < a.len() && (#[trigger] a[j]).id == d;
            assert(b[j] == a[j]);
        }
        if has_gpu(b, d) {
            let j = choose|j: int| 0 <= j < b.len() && (#[trigger] b[j]).id == d;
            if j < i {
                assert(a[j] == b[j]);
            }
        }
        assert(b[i] == gpus[i]);
    }
}

impl Sim {
    /// Make the streams `1 .. n_streams` of every GPU blocking. `n_streams <= 1` changes nothing.
    pub fn set_created_streams_blocking(&mut self, n_streams: u8) -> (r: Result<(), SimError>)
        ensures
            r == Ok::<(), SimError>(()),
            final(self)@ == (SimState {
                blocking: old(self)@.blocking.union(
                    created_streams(old(self)@.profile.gpus, n_streams),
                ),
                ..old(self)@
            }),
    {
        let ghost s0 = self@;
        let ghost q = self.profile@.gpus;
        let mut i: usize = 0;
        assert(s0.blocking.union(created_streams(q.take(0), n_streams)) =~= s0.blocking);
        while i < self.profile.gpus.len()
            invariant
                q == self.profile.gpus@,
                q == s0.profile.gpus,
                i <= q.len(),
                self@ == (SimState {
                    blocking: s0.blocking.union(created_streams(q.take(i as int), n_streams)),
                    ..s0
                }),
            decreases q.len() - i,
        {
            let d = self.profile.gpus[i].id;
            proof {
                lemma_gpu_found(q, i as int, 0);
            }
            let ghost before = self@.blocking;
            let mut k: u8 = 1;
            assert(before.union(Set::new(|l: Lane| l.0 == d && 1 <= l.1.0 < 1)) =~= before);
            while k < n_streams
                invariant
                    q == self.profile.gpus@,
                    q == s0.profile.gpus,
                    i < q.len(),
                    d == q[i as int].id,
                    1 <= k,
                    k <= n_streams || k == 1,
                    gpu_index(q, d, 0) is Some,
                    self@ == (SimState {
                        blocking: before.union(Set::new(|l: Lane| l.0 == d && 1 <= l.1.0 < k)),
                        ..s0
                    }),
                decreases n_streams - k,
            {
                self.set_stream_blocking(d, StreamId(k as u16), true)?;
                k += 1;
                assert(
                    self@.blocking =~= before.union(Set::new(|l: Lane| l.0 == d && 1 <= l.1.0 < k))
                );
            }
            proof {
                lemma_created_step(q, q.take(i as int), q.take(i + 1), n_streams);
                assert(q.take(i as int).len() == i);
                assert(k == 1 || k == n_streams);
            }
            i += 1;
            assert(
                self@.blocking =~= s0.blocking.union(created_streams(q.take(i as int), n_streams))
            );
        }
        assert(q.take(i as int) =~= q);
        Ok(())
    }
}

impl Sim {
    /// Give the streams `1 .. n_streams` of every GPU their number as priority.
    pub fn set_created_streams_priority(&mut self, n_streams: u8) -> (r: Result<(), SimError>)
        ensures
            r == Ok::<(), SimError>(()),
            final(self)@ == (SimState {
                priority: with_created(
                    old(self)@.priority,
                    old(self)@.profile.gpus,
                    n_streams,
                    |l: Lane| l.1.0 as i32,
                ),
                ..old(self)@
            }),
    {
        let ghost s0 = self@;
        let ghost q = self.profile@.gpus;
        let mut i: usize = 0;
        assert(
            with_created(s0.priority, q.take(0), n_streams, |l: Lane| l.1.0 as i32) =~= s0.priority
        );
        while i < self.profile.gpus.len()
            invariant
                q == self.profile.gpus@,
                q == s0.profile.gpus,
                i <= q.len(),
                self@ == (SimState {
                    priority: with_created(
                        s0.priority,
                        q.take(i as int),
                        n_streams,
                        |l: Lane| l.1.0 as i32,
                    ),
                    ..s0
                }),
            decreases q.len() - i,
        {
            let d = self.profile.gpus[i].id;
            proof {
                lemma_gpu_found(q, i as int, 0);
            }
            let ghost before = self@.priority;
            let mut k: u8 = 1;
            assert(
                before.union_prefer_right(
                    Map::new(|l: Lane| l.0 == d && 1 <= l.1.0 < 1, |l: Lane| l.1.0 as i32),
                ) =~= before
            );
            while k < n_streams
                invariant
                    q == self.profile.gpus@,
                    q == s0.profile.gpus,
                    i < q.len(),
                    d == q[i as int].id,
                    1 <= k,
                    k <= n_streams || k == 1,
                    gpu_index(q, d, 0) is Some,
                    self@ == (SimState {
                        priority: before.union_prefer_right(
                            Map::new(|l: Lane| l.0 == d && 1 <= l.1.0 < k, |l: Lane| l.1.0 as i32),
                        ),
                        ..s0
                    }),
                decreases n_streams - k,
            {
                self.set_stream_priority(d, StreamId(k as u16), k as i32)?;
                k += 1;
                assert(
                    self@.priority =~= before.union_prefer_right(
                        Map::new(|l: Lane| l.0 == d && 1 <= l.1.0 < k, |l: Lane| l.1.0 as i32),
                    )
                );
            }
            proof {
                lemma_created_step(q, q.take(i as int), q.take(i + 1), n_streams);
                assert(q.take(i as int).len() == i);
                assert(k == 1 || k == n_streams);
            }
            i += 1;
            assert(
                self@.priority =~= with_created(
                    s0.priority,
                    q.take(i as int),
                    n_streams,
                    |l: Lane| l.1.0 as i32,
                )
            );
        }
        assert(q.take(i as int) =~= q);
        Ok(())
    }
}

impl Sim {
    /// Set the synchronization policy of the streams `1 .. n_streams` of every GPU.
    pub fn set_created_streams_sync_policy(
        &mut self,
        n_streams: u8,
        policy: SynchronizationPolicy,
    ) -> (r: Result<(), SimError>)
        ensures
            r == Ok::<(), SimError>(()),
            final(self)@ == (SimState {
                stream_sync_policy: with_created(
                    old(self)@.stream_sync_policy,
                    old(self)@.profile.gpus,
                    n_streams,
                    |l: Lane| policy,
                ),
                ..old(self)@
            }),
    {
        let ghost s0 = self@;
        let ghost q = self.profile@.gpus;
        let mut i: usize = 0;
        assert(
            with_created(
                s0.stream_sync_policy,
                q.take(0),
                n_streams,
                |l: Lane| policy,
            ) =~= s0.stream_sync_policy
        );
        while i < self.profile.gpus.len()
            invariant
                q == self.profile.gpus@,
                q == s0.profile.gpus,
                i <= q.len(),
                self@ == (SimState {
                    stream_sync_policy: with_created(
                        s0.stream_sync_policy,
                        q.take(i as int),
                        n_streams,
                        |l: Lane| policy,
                    ),
                    ..s0
                }),
            decreases q.len() - i,
        {
            let d = self.profile.gpus[i].id;
            proof {
                lemma_gpu_found(q, i as int, 0);
            }
            let ghost before = self@.stream_sync_policy;
            let mut k: u8 = 1;
            assert(
                before.union_prefer_right(
                    Map::new(|l: Lane| l.0 == d && 1 <= l.1.0 < 1, |l: Lane| policy),
                ) =~= before
            );
            while k < n_streams
                invariant
                    q == self.profile.gpus@,
                    q == s0.profile.gpus,
                    i < q.len(),
                    d == q[i as int].id,
                    1 <= k,
                    k <= n_streams || k == 1,
                    gpu_index(q, d, 0) is Some,
                    self@ == (SimState {
                        stream_sync_policy: before.union_prefer_right(
                            Map::new(|l: Lane| l.0 == d && 1 <= l.1.0 < k, |l: Lane| policy),
                        ),
                        ..s0
                    }),
                decreases n_streams - k,
            {
                self.set_stream_sync_policy(d, StreamId(k as u16), policy)?;
                k += 1;
                assert(
                    self@.stream_sync_policy =~= before.union_prefer_right(
                        Map::new(|l: Lane| l.0 == d && 1 <= l.1.0 < k, |l: Lane| policy),
                    )
                );
            }
            proof {
                lemma_created_step(q, q.take(i as int), q.take(i + 1), n_streams);
                assert(q.take(i as int).len() == i);
                assert(k == 1 || k == n_streams);
            }
            i += 1;
            assert(
                self@.stream_sync_policy =~= with_created(
                    s0.stream_sync_policy,
                    q.take(i as int),
                    n_streams,
                    |l: Lane| policy,
                )
            );
        }
        assert(q.take(i as int) =~= q);
        Ok(())
    }
}

impl SimState {
    /// Effect of [`Sim::take_compute`].
    pub open spec fn take_compute(self, device: DeviceId) -> (SimState, Result<bool, SimError>) {
        let s = self;
        s.take_compute_n(device, 1)
    }

    /// Effect of [`Sim::take_compute_n`].
    #[verifier::opaque]
    pub open spec fn take_compute_n(
        self,
        device: DeviceId,
        n: u8,
    ) -> (SimState, Result<bool, SimError>) {
        let s = self;
        match s.profile.gpu(device) {
            Err(e) => (s, Err(e)),
            Ok(gpu) => {
                let cap = max_u8(gpu.compute_slots, 1);
                match s.gpu_rt(device) {
                    Err(e) => (s, Err(e)),
                    Ok(rt) => {
                        let taken = rt.compute.saturating_add(max_u8(n, 1));
                        if taken > cap {
                            (s, Ok(false))
                        } else {
                            match s.gpu_rt(device) {
                                Err(e) => (s, Err(e)),
                                Ok(rt) => {
                                    let s = SimState {
                                        gpus: s.gpus.insert(
                                            device,
                                            GpuRtView { compute: taken, ..rt },
                                        ),
                                        ..s
                                    };
                                    (s, Ok(true))
                                },
                            }
                        }
                    },
                }
            },
        }
    }

    /// Effect of [`Sim::drop_compute`].
    pub open spec fn drop_compute(self, device: DeviceId) -> (SimState, Result<(), SimError>) {
        let s = self;
        s.drop_compute_n(device, 1)
    }

    /// Effect of [`Sim::drop_compute_n`].
    pub open spec fn drop_compute_n(
        self,
        device: DeviceId,
        n: u8,
    ) -> (SimState, Result<(), SimError>) {
        let s = self;
        match s.gpu_rt(device) {
            Err(e) => (s, Err(e)),
            Ok(rt) => {
                let rt = GpuRtView { compute: rt.compute.saturating_sub(max_u8(n, 1)), ..rt };
                let s = SimState { gpus: s.gpus.insert(device, rt), ..s };
                (s, Ok(()))
            },
        }
    }

    /// Value of [`Sim::kernel_slots`].
    pub open spec fn kernel_slots(
        self,
        device: DeviceId,
        cooperative: bool,
        cluster: Option<ClusterDim>,
        preferred: Option<ClusterDim>,
        policy: ClusterSchedulingPolicy,
        carveout: SharedMemCarveout,
    ) -> Result<u8, SimError> {
        match self.profile.gpu(device) {
            Err(e) => Err(e),
            Ok(gpu) => {
                let cap = max_u8(gpu.compute_slots, 1);
                if cooperative || carveout.occupies_all_slots() {
                    Ok(cap)
                } else {
                    match self.effective_cluster_blocks(device, cluster, preferred) {
                        Err(e) => Err(e),
                        Ok(blocks) => if blocks <= 1 {
                            Ok(1)
                        } else if policy == ClusterSchedulingPolicy::Spread {
                            Ok(cap)
                        } else {
                            let n = min_u32(blocks, cap as u32);
                            Ok(max_u8(n as u8, 1))
                        },
                    }
                }
            },
        }
    }

    /// Value of [`Sim::op_kernel_slots`].
    pub open spec fn op_kernel_slots(self, op: OpView) -> Result<u8, SimError> {
        match op.kind {
            GpuOpView::Kernel { kind, reads, writes, cooperative } => match self.kernel_slots(
                op.device,
                cooperative,
                op.attrs.cluster,
                op.attrs.preferred_cluster,
                op.attrs.cluster_policy,
                op.attrs.carveout,
            ) {
                Err(e) => Err(e),
                Ok(slots) => if op.attrs.nvlink_util_centric && self.profile.has_nvlink() {
                    match self.profile.gpu(op.device) {
                        Err(e) => Err(e),
                        Ok(gpu) => Ok(max_u8(gpu.compute_slots, 1)),
                    }
                } else {
                    Ok(slots)
                },
            },
            _ => Ok(1),
        }
    }

    /// Value of [`Sim::require_cooperative`].
    pub open spec fn require_cooperative(self, device: DeviceId) -> Result<(), SimError> {
        match self.profile.gpu(device) {
            Err(e) => Err(e),
            Ok(gpu) => if gpu.cooperative_launch {
                Ok(())
            } else {
                Err(invalid("cooperative launch not supported"))
            },
        }
    }

    /// Effect of [`Sim::enable_peer`].
    pub open spec fn enable_peer(
        self,
        src: DeviceId,
        dst: DeviceId,
    ) -> (SimState, Result<(), SimError>) {
        let s = self;
        if src == dst {
            (s, Ok(()))
        } else {
            match s.profile.link(Some(src), Some(dst)) {
                Err(e) => (s, Err(e)),
                Ok(_link) => {
                    let s = SimState { peer_enabled: s.peer_enabled.insert(Peer(src, dst)), ..s };
                    (s, Ok(()))
                },
            }
        }
    }

    /// Effect of [`Sim::enable_peer_with_flags`].
    pub open spec fn enable_peer_with_flags(
        self,
        src: DeviceId,
        dst: DeviceId,
        flags: u32,
    ) -> (SimState, Result<(), SimError>) {
        let s = self;
        if flags != PeerAccessFlags::DEFAULT {
            (s, Err(invalid("peer access flags")))
        } else {
            s.enable_peer(src, dst)
        }
    }

    /// Effect of [`Sim::disable_peer`].
    pub open spec fn disable_peer(
        self,
        src: DeviceId,
        dst: DeviceId,
    ) -> (SimState, Result<(), SimError>) {
        let s = self;
        if src == dst {
            (s, Ok(()))
        } else {
            match s.profile.gpu(src) {
                Err(e) => (s, Err(e)),
                Ok(_gpu_s) => match s.profile.gpu(dst) {
                    Err(e) => (s, Err(e)),
                    Ok(_gpu_d) => {
                        let s = SimState {
                            peer_enabled: s.peer_enabled.remove(Peer(src, dst)),
                            ..s
                        };
                        (s, Ok(()))
                    },
                },
            }
        }
    }

    /// Value of [`Sim::peer_access`].
    pub open spec fn peer_access(self, src: DeviceId, dst: DeviceId) -> bool {
        src == dst || self.peer_enabled.contains(Peer(src, dst))
    }

    /// Value of [`Sim::cluster_block_count`].
    pub open spec fn cluster_block_count(
        self,
        device: DeviceId,
        dim: ClusterDim,
    ) -> Result<u32, SimError> {
        match (match dim.blocks() { Some(x) => Ok(x), None => Err(invalid("cluster dimension")) }) {
            Err(e) => Err(e),
            Ok(n) => match self.profile.gpu(device) {
                Err(e) => Err(e),
                Ok(gpu) => {
                    let max = max_u16(gpu.max_blocks_per_cluster, 1) as u32;
                    if n > max {
                        Err(invalid("cluster size"))
                    } else {
                        Ok(n)
                    }
                },
            },
        }
    }

    /// Value of [`Sim::effective_cluster_blocks`].
    pub open spec fn effective_cluster_blocks(
        self,
        device: DeviceId,
        cluster: Option<ClusterDim>,
        preferred: Option<ClusterDim>,
    ) -> Result<u32, SimError> {
        match cluster {
            None => if preferred.is_some() {
                Err(invalid("preferred cluster"))
            } else {
                Ok(0)
            },
            Some(c) => match preferred {
                None => self.cluster_block_count(device, c),
                Some(p) => if !p.multiple_of(c) {
                    Err(invalid("preferred cluster"))
                } else {
                    match self.cluster_block_count(device, c) {
                        Err(e) => Err(e),
                        Ok(required) => match self.cluster_block_count(device, p) {
                            Err(e) => Err(e),
                            Ok(preferred_n) => match self.profile.gpu(device) {
                                Err(e) => Err(e),
                                Ok(gpu) => if preferred_n <= max_u8(gpu.compute_slots, 1) as u32 {
                                    Ok(preferred_n)
                                } else {
                                    Ok(required)
                                },
                            },
                        },
                    }
                },
            },
        }
    }
}

impl Sim {
    /// Take one compute slot, or `false` if all are occupied.
    pub(crate) fn take_compute(&mut self, device: DeviceId) -> (r: Result<bool, SimError>)
        ensures
            final(self)@ == old(self)@.take_compute(device).0,
            r == old(self)@.take_compute(device).1,
    {
        self.take_compute_n(device, 1)
    }

    /// Take `n` compute slots, or `false` if they are not free.
    pub(crate) fn take_compute_n(&mut self, device: DeviceId, n: u8) -> (r: Result<bool, SimError>)
        ensures
            final(self)@ == old(self)@.take_compute_n(device, n).0,
            r == old(self)@.take_compute_n(device, n).1,
    {
        reveal(SimState::take_compute_n);
        let gpu = self.profile.gpu(device)?;
        let cap: u8 = max_u8(gpu.compute_slots, 1);
        let rt = self.gpu_rt(device)?;
        let taken: u8 = rt.compute.saturating_add(max_u8(n, 1));
        if taken > cap {
            return Ok(false);
        }
        self.gpu_rt_mut(device)?.compute = taken;
        Ok(true)
    }

    /// Release one compute slot.
    pub(crate) fn drop_compute(&mut self, device: DeviceId) -> (r: Result<(), SimError>)
        ensures
            final(self)@ == old(self)@.drop_compute(device).0,
            r == old(self)@.drop_compute(device).1,
    {
        self.drop_compute_n(device, 1)
    }

    /// Release `n` compute slots.
    pub(crate) fn drop_compute_n(&mut self, device: DeviceId, n: u8) -> (r: Result<(), SimError>)
        ensures
            final(self)@ == old(self)@.drop_compute_n(device, n).0,
            r == old(self)@.drop_compute_n(device, n).1,
    {
        let rt = self.gpu_rt_mut(device)?;
        rt.compute = rt.compute.saturating_sub(max_u8(n, 1));
        Ok(())
    }

    /// Slots that a kernel occupies.
    ///
    /// Cooperative grids and a full shared-memory carveout need the whole GPU, and so does a
    /// cluster that spreads. Another cluster occupies its blocks, at most every slot.
    pub(crate) fn kernel_slots(
        &self,
        device: DeviceId,
        cooperative: bool,
        cluster: Option<ClusterDim>,
        preferred: Option<ClusterDim>,
        policy: ClusterSchedulingPolicy,
        carveout: SharedMemCarveout,
    ) -> (r: Result<u8, SimError>)
        ensures
            r == self@.kernel_slots(device, cooperative, cluster, preferred, policy, carveout),
    {
        let gpu = self.profile.gpu(device)?;
        let cap: u8 = max_u8(gpu.compute_slots, 1);
        if cooperative || carveout.occupies_all_slots() {
            return Ok(cap);
        }
        let blocks: u32 = self.effective_cluster_blocks(device, cluster, preferred)?;
        if blocks <= 1 {
            return Ok(1);
        }
        if policy == ClusterSchedulingPolicy::Spread {
            return Ok(cap);
        }
        let n: u32 = min_u32(blocks, cap as u32);
        Ok(max_u8(n as u8, 1))
    }

    /// Slots of a submitted operation.
    pub(crate) fn op_kernel_slots(&self, op: &Op) -> (r: Result<u8, SimError>)
        ensures
            r == self@.op_kernel_slots(op@),
    {
        match &op.kind {
            GpuOp::Kernel { kind, reads, writes, cooperative } => {
                let slots: u8 = self.kernel_slots(
                    op.device,
                    *cooperative,
                    op.attrs.cluster,
                    op.attrs.preferred_cluster,
                    op.attrs.cluster_policy,
                    op.attrs.carveout,
                )?;
                if op.attrs.nvlink_util_centric && self.profile.has_nvlink() {
                    let gpu = self.profile.gpu(op.device)?;
                    return Ok(max_u8(gpu.compute_slots, 1));
                }
                Ok(slots)
            },
            _ => Ok(1),
        }
    }

    /// Cooperative launch must be supported by the device.
    pub(crate) fn require_cooperative(&self, device: DeviceId) -> (r: Result<(), SimError>)
        ensures
            r == self@.require_cooperative(device),
    {
        let gpu = self.profile.gpu(device)?;
        if gpu.cooperative_launch {
            Ok(())
        } else {
            Err(invalid("cooperative launch not supported"))
        }
    }

    /// Enable peer access of `src` to `dst`; one device is always its own peer.
    pub fn enable_peer(&mut self, src: DeviceId, dst: DeviceId) -> (r: Result<(), SimError>)
        ensures
            final(self)@ == old(self)@.enable_peer(src, dst).0,
            r == old(self)@.enable_peer(src, dst).1,
    {
        if src == dst {
            return Ok(());
        }
        let _link = self.profile.link(Some(src), Some(dst))?;
        let _was = self.peer_enabled.insert(Peer(src, dst));
        Ok(())
    }

    /// [`Self::enable_peer`] with a flags word, which must be zero.
    pub fn enable_peer_with_flags(
        &mut self,
        src: DeviceId,
        dst: DeviceId,
        flags: u32,
    ) -> (r: Result<(), SimError>)
        ensures
            final(self)@ == old(self)@.enable_peer_with_flags(src, dst, flags).0,
            r == old(self)@.enable_peer_with_flags(src, dst, flags).1,
    {
        if flags != PeerAccessFlags::DEFAULT {
            return Err(invalid("peer access flags"));
        }
        self.enable_peer(src, dst)
    }

    /// Disable peer access of `src` to `dst`.
    pub fn disable_peer(&mut self, src: DeviceId, dst: DeviceId) -> (r: Result<(), SimError>)
        ensures
            final(self)@ == old(self)@.disable_peer(src, dst).0,
            r == old(self)@.disable_peer(src, dst).1,
    {
        if src == dst {
            return Ok(());
        }
        let _gpu_s = self.profile.gpu(src)?;
        let _gpu_d = self.profile.gpu(dst)?;
        let _was = self.peer_enabled.remove(Peer(src, dst));
        Ok(())
    }

    /// Whether `src` may copy from `dst` directly.
    pub fn peer_access(&self, src: DeviceId, dst: DeviceId) -> (r: bool)
        ensures
            r == self@.peer_access(src, dst),
    {
        src == dst || self.peer_enabled.contains(Peer(src, dst))
    }

    /// Blocks of a cluster, at most the device maximum.
    pub(crate) fn cluster_block_count(
        &self,
        device: DeviceId,
        dim: ClusterDim,
    ) -> (r: Result<u32, SimError>)
        ensures
            r == self@.cluster_block_count(device, dim),
    {
        let n: u32 = dim.blocks().ok_or(invalid("cluster dimension"))?;
        let gpu = self.profile.gpu(device)?;
        let max: u32 = max_u16(gpu.max_blocks_per_cluster, 1) as u32;
        if n > max {
            return Err(invalid("cluster size"));
        }
        Ok(n)
    }

    /// Blocks that a launch with these cluster shapes runs as one unit; `0` without a cluster.
    pub(crate) fn effective_cluster_blocks(
        &self,
        device: DeviceId,
        cluster: Option<ClusterDim>,
        preferred: Option<ClusterDim>,
    ) -> (r: Result<u32, SimError>)
        ensures
            r == self@.effective_cluster_blocks(device, cluster, preferred),
    {
        match cluster {
            None => {
                if preferred.is_some() {
                    return Err(invalid("preferred cluster"));
                }
                Ok(0)
            },
            Some(c) => match preferred {
                None => self.cluster_block_count(device, c),
                Some(p) => {
                    if !p.multiple_of(c) {
                        return Err(invalid("preferred cluster"));
                    }
                    let required: u32 = self.cluster_block_count(device, c)?;
                    let preferred_n: u32 = self.cluster_block_count(device, p)?;
                    let gpu = self.profile.gpu(device)?;
                    if preferred_n <= max_u8(gpu.compute_slots, 1) as u32 {
                        Ok(preferred_n)
                    } else {
                        Ok(required)
                    }
                },
            },
        }
    }
}

} // verus!
