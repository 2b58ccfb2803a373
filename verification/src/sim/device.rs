//! Queries on operations and devices, device limits and function attributes.
use vstd::prelude::*;
use crate::error::{invalid, SimError};
use crate::ids::{AllocId, DeviceId, OpId, StreamId};
use crate::list::{copy_vec, Dup, has_key, ok_ref, ok_view, opt_view, Rows};
use crate::num::{bit, clamp_u32, max_u32};
use crate::ops::{
    DeviceAttr, DeviceLimit, DeviceP2pAttr, FuncAttr, FuncAttributes, HostAllocFlags, MemHandleType,
    MemoryType, Operation, OperationView, PointerAttributes,
};
use crate::persist::{lines_trimmed, persist_trim};
use crate::sim::{Sim, SimState};
use crate::spans::{maps_cover, vmm_covers};
use crate::state::{Alloc, AllocView, DeviceLimits, GpuRt, GpuRtView, Op, OpView, PersistLine};
use crate::table::order_of;

verus! {

/// Properties of a device.
pub struct DeviceProperties {
    pub name: String,
    pub total_global_mem: u64,
    pub shared_mem_per_block: u32,
    pub shared_mem_per_block_optin: u32,
    pub l2_cache_size: u64,
    pub async_engine_count: u32,
    pub concurrent_kernels: bool,
    pub cooperative_launch: bool,
    pub max_blocks_per_cluster: u32,
    pub portable_cluster_size: u32,
    pub mem_sync_domain_count: u32,
    pub memory_pools_supported: bool,
    pub can_map_host_memory: bool,
    pub managed_memory: bool,
    pub cluster_launch: bool,
    pub host_register_supported: bool,
    pub ipc_event_support: bool,
    pub can_use_host_pointer_for_registered_mem: bool,
    pub memory_pool_supported_handle_types: u64,
}

/// Mathematical form of [`DeviceProperties`].
#[verifier::ext_equal]
pub struct PropertiesView {
    pub name: Seq<char>,
    pub total_global_mem: u64,
    pub shared_mem_per_block: u32,
    pub shared_mem_per_block_optin: u32,
    pub l2_cache_size: u64,
    pub async_engine_count: u32,
    pub concurrent_kernels: bool,
    pub cooperative_launch: bool,
    pub max_blocks_per_cluster: u32,
    pub portable_cluster_size: u32,
    pub mem_sync_domain_count: u32,
    pub memory_pools_supported: bool,
    pub can_map_host_memory: bool,
    pub managed_memory: bool,
    pub cluster_launch: bool,
    pub host_register_supported: bool,
    pub ipc_event_support: bool,
    pub can_use_host_pointer_for_registered_mem: bool,
    pub memory_pool_supported_handle_types: u64,
}

impl View for DeviceProperties {
    type V = PropertiesView;

    open spec fn view(&self) -> PropertiesView {
        PropertiesView {
            name: self.name@,
            total_global_mem: self.total_global_mem,
            shared_mem_per_block: self.shared_mem_per_block,
            shared_mem_per_block_optin: self.shared_mem_per_block_optin,
            l2_cache_size: self.l2_cache_size,
            async_engine_count: self.async_engine_count,
            concurrent_kernels: self.concurrent_kernels,
            cooperative_launch: self.cooperative_launch,
            max_blocks_per_cluster: self.max_blocks_per_cluster,
            portable_cluster_size: self.portable_cluster_size,
            mem_sync_domain_count: self.mem_sync_domain_count,
            memory_pools_supported: self.memory_pools_supported,
            can_map_host_memory: self.can_map_host_memory,
            managed_memory: self.managed_memory,
            cluster_launch: self.cluster_launch,
            host_register_supported: self.host_register_supported,
            ipc_event_support: self.ipc_event_support,
            can_use_host_pointer_for_registered_mem: self.can_use_host_pointer_for_registered_mem,
            memory_pool_supported_handle_types: self.memory_pool_supported_handle_types,
        }
    }
}

impl OpView {
    /// What a caller sees of an operation.
    pub open spec fn shown(self, id: OpId) -> OperationView {
        OperationView {
            id,
            device: self.device,
            stream: self.stream,
            kind: self.kind,
            deps: self.deps,
            done: self.done,
            cancelled: self.cancelled,
            submit_ns: self.submit_ns,
            start_ns: self.start_ns,
            done_ns: self.done_ns,
        }
    }
}

impl Op {
    /// What a caller sees of an operation.
    pub fn shown(&self, id: OpId) -> (r: Operation)
        ensures
            r@ == self@.shown(id),
    {
        Operation {
            id,
            device: self.device,
            stream: self.stream,
            kind: self.kind.dup(),
            deps: copy_vec(&self.deps),
            done: self.done,
            cancelled: self.cancelled,
            submit_ns: self.submit_ns,
            start_ns: self.start_ns,
            done_ns: self.done_ns,
        }
    }
}

impl SimState {
    /// Submitted operations in order of their ids.
    pub open spec fn operations(self) -> Seq<OperationView> {
        order_of(self.ops.dom()).map_values(|id: OpId| self.ops[id].shown(id))
    }

    /// Properties of a device.
    pub open spec fn device_get_properties(self, device: DeviceId) -> Result<
        PropertiesView,
        SimError,
    > {
        match self.profile.gpu(device) {
            Err(e) => Err(e),
            Ok(gpu) => Ok(
                PropertiesView {
                    name: self.profile.name,
                    total_global_mem: gpu.hbm_bytes,
                    shared_mem_per_block: gpu.max_shared_mem_per_block,
                    shared_mem_per_block_optin: gpu.max_shared_mem_per_block_optin,
                    l2_cache_size: gpu.l2_bytes,
                    async_engine_count: gpu.copy_engines as u32,
                    concurrent_kernels: gpu.compute_slots > 1,
                    cooperative_launch: gpu.cooperative_launch,
                    max_blocks_per_cluster: gpu.max_blocks_per_cluster as u32,
                    portable_cluster_size: gpu.portable_cluster_size as u32,
                    mem_sync_domain_count: gpu.mem_sync_domain_count as u32,
                    memory_pools_supported: true,
                    can_map_host_memory: true,
                    managed_memory: true,
                    cluster_launch: gpu.max_blocks_per_cluster > 0,
                    host_register_supported: true,
                    ipc_event_support: true,
                    can_use_host_pointer_for_registered_mem: true,
                    memory_pool_supported_handle_types: MemHandleType::POSIX_FILE_DESCRIPTOR,
                },
            ),
        }
    }
}

impl SimState {
    /// Value of [`Sim::op_stream`].
    pub open spec fn op_stream(self, id: OpId) -> Option<StreamId> {
        match self.ops.get(id) {
            Some(o) => Some(o.stream),
            None => None,
        }
    }

    /// Value of [`Sim::operation`].
    pub open spec fn operation(self, id: OpId) -> Option<OperationView> {
        match self.ops.get(id) {
            Some(o) => Some(o.shown(id)),
            None => None,
        }
    }

    /// Value of [`Sim::hbm_used`].
    pub open spec fn hbm_used(self, device: DeviceId) -> Result<u64, SimError> {
        match self.gpu_rt(device) {
            Err(e) => Err(e),
            Ok(rt) => Ok(rt.used),
        }
    }

    /// Value of [`Sim::mem_info`].
    pub open spec fn mem_info(self, device: DeviceId) -> Result<(u64, u64), SimError> {
        match self.profile.gpu(device) {
            Err(e) => Err(e),
            Ok(gpu) => match self.hbm_used(device) {
                Err(e) => Err(e),
                Ok(used) => Ok((gpu.hbm_bytes.saturating_sub(used), gpu.hbm_bytes)),
            },
        }
    }

    /// Value of [`Sim::is_resident`].
    pub open spec fn is_resident(self, alloc: AllocId, device: DeviceId) -> Result<bool, SimError> {
        match self.alloc_ref(alloc) {
            Err(e) => Err(e),
            Ok(a) => if a.vmm {
                Ok(a.live && maps_cover(a.vmm_maps, device, 0, a.bytes))
            } else {
                Ok(a.live && a.devices.contains(device))
            },
        }
    }

    /// Value of [`Sim::is_range_resident`].
    pub open spec fn is_range_resident(
        self,
        alloc: AllocId,
        device: DeviceId,
        offset: u64,
        bytes: u64,
    ) -> Result<bool, SimError> {
        match self.alloc_ref(alloc) {
            Err(e) => Err(e),
            Ok(a) => if offset.saturating_add(bytes) > a.bytes {
                Err(invalid("range past alloc"))
            } else if a.vmm {
                Ok(a.live && maps_cover(a.vmm_maps, device, offset, bytes))
            } else {
                Ok(a.live && a.devices.contains(device))
            },
        }
    }

    /// Value of [`Sim::known_device`].
    pub open spec fn known_device(self, device: DeviceId) -> Result<GpuRtView, SimError> {
        match self.gpus.get(device) {
            Some(rt) => Ok(rt),
            None => Err(invalid("unknown device")),
        }
    }

    /// Effect of [`Sim::set_persisting_l2_cache_size`].
    pub open spec fn set_persisting_l2_cache_size(
        self,
        device: DeviceId,
        bytes: u64,
    ) -> (SimState, Result<(), SimError>) {
        let s = self;
        match s.fail_if_capturing("cannot capture persisting L2") {
            Err(e) => (s, Err(e)),
            Ok(_v) => match s.profile.gpu(device) {
                Err(e) => (s, Err(e)),
                Ok(gpu) => if bytes > gpu.l2_bytes {
                    (s, Err(invalid("persisting L2 cache size")))
                } else {
                    match s.known_device(device) {
                        Err(e) => (s, Err(e)),
                        Ok(was) => {
                            let lines = was.persist_lines;
                            let lines = lines_trimmed(lines, 0, bytes);
                            match s.gpu_rt(device) {
                                Err(e) => (s, Err(e)),
                                Ok(rt) => {
                                    let rt = GpuRtView {
                                        persist_limit: bytes,
                                        persist_lines: lines,
                                        ..rt
                                    };
                                    let s = SimState { gpus: s.gpus.insert(device, rt), ..s };
                                    let s = s.tick(1);
                                    (s, Ok(()))
                                },
                            }
                        },
                    }
                },
            },
        }
    }

    /// Value of [`Sim::persisting_l2_cache_size`].
    pub open spec fn persisting_l2_cache_size(self, device: DeviceId) -> Result<u64, SimError> {
        match self.profile.gpu(device) {
            Err(e) => Err(e),
            Ok(_gpu) => match self.known_device(device) {
                Err(e) => Err(e),
                Ok(rt) => Ok(rt.persist_limit),
            },
        }
    }

    /// Effect of [`Sim::reset_persisting_l2_cache`].
    pub open spec fn reset_persisting_l2_cache(
        self,
        device: DeviceId,
    ) -> (SimState, Result<(), SimError>) {
        let s = self;
        match s.fail_if_capturing("cannot capture persisting L2") {
            Err(e) => (s, Err(e)),
            Ok(_v) => match s.profile.gpu(device) {
                Err(e) => (s, Err(e)),
                Ok(_gpu) => match s.known_device(device) {
                    Err(e) => (s, Err(e)),
                    Ok(_known) => match s.gpu_rt(device) {
                        Err(e) => (s, Err(e)),
                        Ok(rt) => {
                            let rt = GpuRtView { persist_lines: Seq::empty(), ..rt };
                            let s = SimState { gpus: s.gpus.insert(device, rt), ..s };
                            let s = s.tick(1);
                            (s, Ok(()))
                        },
                    },
                },
            },
        }
    }

    /// Effect of [`Sim::enable_persisting_l2`].
    pub open spec fn enable_persisting_l2(self) -> (SimState, Result<(), SimError>) {
        let s = self;
        s.enable_persisting_l2_from(0)
    }

    /// [`Sim::enable_persisting_l2`] from position `i` on.
    pub open spec fn enable_persisting_l2_from(self, i: int) -> (SimState, Result<(), SimError>)
        decreases self.profile.gpus.len() - i,
    {
        let s = self;
        if 0 <= i < s.profile.gpus.len() {
            let g = s.profile.gpus[i];
            if g.l2_bytes == 0 {
                (s, Err(invalid("l2 persist needs l2_bytes")))
            } else {
                match s.set_persisting_l2_cache_size(g.id, g.l2_bytes) {
                    (s, Err(e)) => (s, Err(e)),
                    (s, Ok(_v)) => s.enable_persisting_l2_from(i + 1),
                }
            }
        } else {
            (s, Ok(()))
        }
    }

    /// Value of [`Sim::limits_with`].
    pub open spec fn limits_with(
        self,
        limits: DeviceLimits,
        limit: DeviceLimit,
        value: u64,
    ) -> Result<DeviceLimits, SimError> {
        let out = limits;
        match limit {
            DeviceLimit::StackSize => if value == 0 {
                Err(invalid("device limit"))
            } else {
                let out = DeviceLimits { stack_size: value, ..out };
                Ok(out)
            },
            DeviceLimit::PrintfFifoSize => if value == 0 {
                Err(invalid("device limit"))
            } else {
                let out = DeviceLimits { printf_fifo: value, ..out };
                Ok(out)
            },
            DeviceLimit::MallocHeapSize => {
                let out = DeviceLimits { malloc_heap: value, ..out };
                Ok(out)
            },
            DeviceLimit::DevRuntimeSyncDepth => if value < 2 {
                Err(invalid("device limit"))
            } else {
                let out = DeviceLimits { sync_depth: value, ..out };
                Ok(out)
            },
            DeviceLimit::DevRuntimePendingLaunchCount => if value == 0 {
                Err(invalid("device limit"))
            } else {
                let out = DeviceLimits { pending_launch: value, ..out };
                Ok(out)
            },
            DeviceLimit::MaxL2FetchGranularity => if value != 32 && value != 64 && value != 128 {
                Err(invalid("l2 fetch granularity"))
            } else {
                let out = DeviceLimits { l2_fetch: value, ..out };
                Ok(out)
            },
            DeviceLimit::PersistingL2CacheSize => Ok(out),
        }
    }

    /// Effect of [`Sim::set_limit`].
    pub open spec fn set_limit(
        self,
        device: DeviceId,
        limit: DeviceLimit,
        value: u64,
    ) -> (SimState, Result<(), SimError>) {
        let s = self;
        if limit == DeviceLimit::PersistingL2CacheSize {
            s.set_persisting_l2_cache_size(device, value)
        } else {
            match s.fail_if_capturing("cannot capture set limit") {
                Err(e) => (s, Err(e)),
                Ok(_v) => match s.profile.gpu(device) {
                    Err(e) => (s, Err(e)),
                    Ok(_gpu) => match s.gpu_rt(device) {
                        Err(e) => (s, Err(e)),
                        Ok(was) => match s.limits_with(was.limits, limit, value) {
                            Err(e) => (s, Err(e)),
                            Ok(limits) => match s.gpu_rt(device) {
                                Err(e) => (s, Err(e)),
                                Ok(rt) => {
                                    let rt = GpuRtView { limits: limits, ..rt };
                                    let s = SimState { gpus: s.gpus.insert(device, rt), ..s };
                                    let s = s.tick(1);
                                    (s, Ok(()))
                                },
                            },
                        },
                    },
                },
            }
        }
    }

    /// Value of [`Sim::get_limit`].
    pub open spec fn get_limit(
        self,
        device: DeviceId,
        limit: DeviceLimit,
    ) -> Result<u64, SimError> {
        if limit == DeviceLimit::PersistingL2CacheSize {
            self.persisting_l2_cache_size(device)
        } else {
            match self.gpu_rt(device) {
                Err(e) => Err(e),
                Ok(rt) => match limit {
                    DeviceLimit::StackSize => Ok(rt.limits.stack_size),
                    DeviceLimit::PrintfFifoSize => Ok(rt.limits.printf_fifo),
                    DeviceLimit::MallocHeapSize => Ok(rt.limits.malloc_heap),
                    DeviceLimit::DevRuntimeSyncDepth => Ok(rt.limits.sync_depth),
                    DeviceLimit::DevRuntimePendingLaunchCount => Ok(rt.limits.pending_launch),
                    DeviceLimit::MaxL2FetchGranularity => Ok(rt.limits.l2_fetch),
                    DeviceLimit::PersistingL2CacheSize => Ok(rt.persist_limit),
                },
            }
        }
    }

    /// Value of [`Sim::first_gpu`].
    pub open spec fn first_gpu(self) -> Option<DeviceId> {
        if self.profile.gpus.len() == 0 {
            None
        } else {
            Some(self.profile.gpus[0].id)
        }
    }

    /// Value of [`Sim::home_of`].
    pub open spec fn home_of(self, a: AllocView) -> Option<DeviceId> {
        if a.devices.len() > 0 {
            a.first_device()
        } else if a.vmm_maps.len() > 0 {
            Some(a.vmm_maps[0].0)
        } else {
            None
        }
    }

    /// Value of [`Sim::pointer_get_attributes`].
    pub open spec fn pointer_get_attributes(
        self,
        id: AllocId,
    ) -> Result<PointerAttributes, SimError> {
        match self.alloc_ref(id) {
            Err(e) => Err(e),
            Ok(a) => if !a.live {
                Ok(
                    PointerAttributes {
                        kind: MemoryType::Unregistered,
                        device: None,
                        device_pointer: false,
                        host_pointer: false,
                    },
                )
            } else if a.managed {
                Ok(
                    PointerAttributes {
                        kind: MemoryType::Managed,
                        device: a.first_device(),
                        device_pointer: true,
                        host_pointer: true,
                    },
                )
            } else if a.host_pageable || a.host_pinned {
                let at = if a.host_mapped {
                    self.first_gpu()
                } else {
                    None
                };
                Ok(
                    PointerAttributes {
                        kind: MemoryType::Host,
                        device: at,
                        device_pointer: a.host_mapped,
                        host_pointer: true,
                    },
                )
            } else {
                Ok(
                    PointerAttributes {
                        kind: MemoryType::Device,
                        device: self.home_of(a),
                        device_pointer: true,
                        host_pointer: false,
                    },
                )
            },
        }
    }

    /// Value of [`Sim::host_get_device_pointer`].
    pub open spec fn host_get_device_pointer(self, id: AllocId) -> Result<AllocId, SimError> {
        match self.alloc_ref(id) {
            Err(e) => Err(e),
            Ok(a) => if !a.live {
                Err(SimError::UnknownAlloc { alloc: id })
            } else if a.host_mapped {
                Ok(id)
            } else {
                Err(invalid("not mapped"))
            },
        }
    }

    /// Value of [`Sim::host_get_flags`].
    pub open spec fn host_get_flags(self, id: AllocId) -> Result<u32, SimError> {
        match self.alloc_ref(id) {
            Err(e) => Err(e),
            Ok(a) => if !a.live {
                Err(SimError::UnknownAlloc { alloc: id })
            } else if a.managed || a.vmm || !(a.host_pinned || a.host_registered) {
                Err(invalid("not host alloc"))
            } else if a.host_mapped {
                Ok(HostAllocFlags::MAPPED)
            } else {
                Ok(HostAllocFlags::DEFAULT)
            },
        }
    }

    /// Value of [`Sim::device_get_attribute`].
    pub open spec fn device_get_attribute(
        self,
        device: DeviceId,
        attr: DeviceAttr,
    ) -> Result<u64, SimError> {
        match self.profile.gpu(device) {
            Err(e) => Err(e),
            Ok(gpu) => match attr {
                DeviceAttr::CooperativeLaunch => Ok(bit(gpu.cooperative_launch)),
                DeviceAttr::ConcurrentKernels => Ok(bit(gpu.compute_slots > 1)),
                DeviceAttr::MaxSharedMemoryPerBlock => Ok(gpu.max_shared_mem_per_block as u64),
                DeviceAttr::MaxSharedMemoryPerBlockOptin => Ok(
                    gpu.max_shared_mem_per_block_optin as u64,
                ),
                DeviceAttr::L2CacheSize | DeviceAttr::MaxPersistingL2CacheSize => Ok(gpu.l2_bytes),
                DeviceAttr::MaxBlocksPerCluster => Ok(gpu.max_blocks_per_cluster as u64),
                DeviceAttr::MemSyncDomainCount => Ok(gpu.mem_sync_domain_count as u64),
                DeviceAttr::TotalGlobalMem => Ok(gpu.hbm_bytes),
                DeviceAttr::AsyncEngineCount => Ok(gpu.copy_engines as u64),
                DeviceAttr::ClusterLaunch => Ok(bit(gpu.max_blocks_per_cluster > 0)),
                DeviceAttr::MemoryPoolSupportedHandleTypes => Ok(
                    MemHandleType::POSIX_FILE_DESCRIPTOR,
                ),
                DeviceAttr::MemoryPoolsSupported | DeviceAttr::CanMapHostMemory | DeviceAttr::ManagedMemory => Ok(1),
                DeviceAttr::HostRegisterSupported | DeviceAttr::IpcEventSupport | DeviceAttr::CanUseHostPointerForRegisteredMem => Ok(1),
            },
        }
    }

    /// Value of [`Sim::device_count`].
    pub open spec fn device_count(self) -> u32 {
        clamp_u32((self.profile.gpus.len() as usize))
    }

    /// Value of [`Sim::device_can_access_peer`].
    pub open spec fn device_can_access_peer(
        self,
        device: DeviceId,
        peer: DeviceId,
    ) -> Result<bool, SimError> {
        match self.device_get_p2p_attribute(device, peer, DeviceP2pAttr::AccessSupported) {
            Err(e) => Err(e),
            Ok(yes) => Ok(yes != 0),
        }
    }

    /// Value of [`Sim::device_get_p2p_attribute`].
    pub open spec fn device_get_p2p_attribute(
        self,
        src: DeviceId,
        dst: DeviceId,
        attr: DeviceP2pAttr,
    ) -> Result<u64, SimError> {
        match self.profile.gpu(src) {
            Err(e) => Err(e),
            Ok(_src) => match self.profile.gpu(dst) {
                Err(e) => Err(e),
                Ok(_dst) => match attr {
                    DeviceP2pAttr::AccessSupported => if src == dst || self.profile.link_index(
                        Some(src),
                        Some(dst),
                    ).is_none() {
                        Ok(0)
                    } else {
                        Ok(1)
                    },
                    DeviceP2pAttr::PerformanceRank => Ok(
                        self.profile.p2p_performance_rank(src, dst),
                    ),
                },
            },
        }
    }

    /// Effect of [`Sim::set_non_portable_cluster_size_allowed`].
    pub open spec fn set_non_portable_cluster_size_allowed(
        self,
        device: DeviceId,
        allowed: bool,
    ) -> (SimState, Result<(), SimError>) {
        let s = self;
        match s.profile.gpu(device) {
            Err(e) => (s, Err(e)),
            Ok(_gpu) => {
                let s = if allowed {
                    let s = SimState {
                        non_portable_cluster: s.non_portable_cluster.insert(device),
                        ..s
                    };
                    s
                } else {
                    let s = SimState {
                        non_portable_cluster: s.non_portable_cluster.remove(device),
                        ..s
                    };
                    s
                };
                let s = s.tick(1);
                (s, Ok(()))
            },
        }
    }

    /// Value of [`Sim::non_portable_cluster_size_allowed`].
    pub open spec fn non_portable_cluster_size_allowed(self, device: DeviceId) -> bool {
        self.non_portable_cluster.contains(device)
    }

    /// Effect of [`Sim::set_max_dynamic_shared_memory`].
    pub open spec fn set_max_dynamic_shared_memory(
        self,
        device: DeviceId,
        bytes: u32,
    ) -> (SimState, Result<(), SimError>) {
        let s = self;
        match s.profile.gpu(device) {
            Err(e) => (s, Err(e)),
            Ok(gpu) => if bytes > max_u32(gpu.max_shared_mem_per_block_optin, 1) {
                (s, Err(invalid("max dynamic shared")))
            } else {
                let s = if bytes == 0 {
                    let s = SimState {
                        max_dynamic_shared: s.max_dynamic_shared.remove(device),
                        ..s
                    };
                    s
                } else {
                    let s = SimState {
                        max_dynamic_shared: s.max_dynamic_shared.insert(device, bytes),
                        ..s
                    };
                    s
                };
                let s = s.tick(1);
                (s, Ok(()))
            },
        }
    }

    /// Value of [`Sim::func_get_attributes`].
    pub open spec fn func_get_attributes(
        self,
        device: DeviceId,
    ) -> Result<FuncAttributes, SimError> {
        match self.profile.gpu(device) {
            Err(e) => Err(e),
            Ok(_gpu) => Ok(
                FuncAttributes {
                    max_dynamic_shared_size_bytes: self.max_dynamic_shared_memory(device),
                    non_portable_cluster_size_allowed: self.non_portable_cluster_size_allowed(device),
                },
            ),
        }
    }

    /// Effect of [`Sim::func_set_attribute`].
    pub open spec fn func_set_attribute(
        self,
        device: DeviceId,
        attr: FuncAttr,
        value: i32,
    ) -> (SimState, Result<(), SimError>) {
        let s = self;
        if value < 0 {
            (s, Err(invalid("func attr")))
        } else {
            match attr {
                FuncAttr::MaxDynamicSharedMemorySize => s.set_max_dynamic_shared_memory(
                    device,
                    value as u32,
                ),
                FuncAttr::NonPortableClusterSizeAllowed => if value != 0 && value != 1 {
                    (s, Err(invalid("func attr")))
                } else {
                    s.set_non_portable_cluster_size_allowed(device, value != 0)
                },
            }
        }
    }

    /// Value of [`Sim::func_get_attribute`].
    pub open spec fn func_get_attribute(
        self,
        device: DeviceId,
        attr: FuncAttr,
    ) -> Result<i32, SimError> {
        match self.profile.gpu(device) {
            Err(e) => Err(e),
            Ok(_gpu) => match attr {
                FuncAttr::MaxDynamicSharedMemorySize => {
                    let bytes = self.max_dynamic_shared_memory(device);
                    if bytes > 0x7fff_ffff {
                        Err(invalid("func attr"))
                    } else {
                        Ok(bytes as i32)
                    }
                },
                FuncAttr::NonPortableClusterSizeAllowed => Ok(
                    bit(self.non_portable_cluster_size_allowed(device)) as i32,
                ),
            },
        }
    }
}

impl Sim {
    /// Stream of a submitted operation.
    pub fn op_stream(&self, id: OpId) -> (r: Option<StreamId>)
        ensures
            r == self@.op_stream(id),
    {
        match self.ops.get(id) {
            Some(o) => Some(o.stream),
            None => None,
        }
    }

    /// A submitted operation.
    pub fn operation(&self, id: OpId) -> (r: Option<Operation>)
        ensures
            opt_view(r) == self@.operation(id),
    {
        match self.ops.get(id) {
            Some(o) => Some(o.shown(id)),
            None => None,
        }
    }

    /// Submitted operations in order of their ids.
    pub fn operations(&self) -> (r: Rows<Operation>)
        ensures
            r@ == self@.operations(),
    {
        let ghost q = order_of(self@.ops.dom());
        let ghost want = self@.operations();
        let mut out: Rows<Operation> = Rows::new();
        let mut i: usize = 0;
        let n: usize = self.ops.len();
        while i < n
            invariant
                q == order_of(self@.ops.dom()),
                want == self@.operations(),
                n == q.len(),
                i <= n,
                out@ == want.take(i as int),
            decreases n - i,
        {
            let id = self.ops.key_at(i);
            out.push(self.ops.val_at(i).shown(id));
            i += 1;
            assert(want.take(i as int) =~= want.take(i - 1).push(want[i - 1]));
        }
        assert(want.take(i as int) =~= want);
        out
    }

    /// Bytes charged to a device.
    pub fn hbm_used(&self, device: DeviceId) -> (r: Result<u64, SimError>)
        ensures
            r == self@.hbm_used(device),
    {
        let rt = self.gpu_rt(device)?;
        Ok(rt.used)
    }

    /// Free and total bytes of a device.
    pub fn mem_info(&self, device: DeviceId) -> (r: Result<(u64, u64), SimError>)
        ensures
            r == self@.mem_info(device),
    {
        let gpu = self.profile.gpu(device)?;
        let used: u64 = self.hbm_used(device)?;
        Ok((gpu.hbm_bytes.saturating_sub(used), gpu.hbm_bytes))
    }

    /// Whether a device holds a copy of the allocation. A reserved range is resident where maps
    /// cover it.
    pub fn is_resident(&self, alloc: AllocId, device: DeviceId) -> (r: Result<bool, SimError>)
        ensures
            r == self@.is_resident(alloc, device),
    {
        let a = self.alloc_ref(alloc)?;
        if a.vmm {
            Ok(a.live && vmm_covers(&a.vmm_maps, device, 0, a.bytes))
        } else {
            Ok(a.live && has_key(&a.devices, device))
        }
    }

    /// Whether a device holds a span of the allocation.
    pub fn is_range_resident(
        &self,
        alloc: AllocId,
        device: DeviceId,
        offset: u64,
        bytes: u64,
    ) -> (r: Result<bool, SimError>)
        ensures
            r == self@.is_range_resident(alloc, device, offset, bytes),
    {
        let a = self.alloc_ref(alloc)?;
        if offset.saturating_add(bytes) > a.bytes {
            return Err(invalid("range past alloc"));
        }
        if a.vmm {
            Ok(a.live && vmm_covers(&a.vmm_maps, device, offset, bytes))
        } else {
            Ok(a.live && has_key(&a.devices, device))
        }
    }

    /// Run-time state of a device.
    pub(crate) fn known_device(&self, device: DeviceId) -> (r: Result<&GpuRt, SimError>)
        ensures
            ok_ref(r) == self@.known_device(device),
    {
        match self.gpus.get(device) {
            Some(rt) => Ok(rt),
            None => Err(invalid("unknown device")),
        }
    }

    /// Capacity of persisting L2. The oldest lines above it go.
    pub fn set_persisting_l2_cache_size(
        &mut self,
        device: DeviceId,
        bytes: u64,
    ) -> (r: Result<(), SimError>)
        ensures
            final(self)@ == old(self)@.set_persisting_l2_cache_size(device, bytes).0,
            r == old(self)@.set_persisting_l2_cache_size(device, bytes).1,
    {
        self.fail_if_capturing("cannot capture persisting L2")?;
        let gpu = self.profile.gpu(device)?;
        if bytes > gpu.l2_bytes {
            return Err(invalid("persisting L2 cache size"));
        }
        let was = self.known_device(device)?;
        let mut lines: Vec<PersistLine> = copy_vec(&was.persist_lines);
        persist_trim(&mut lines, 0, bytes);
        let rt = self.gpu_rt_mut(device)?;
        rt.persist_limit = bytes;
        rt.persist_lines = lines;
        self.tick(1);
        Ok(())
    }

    /// Capacity of persisting L2.
    pub fn persisting_l2_cache_size(&self, device: DeviceId) -> (r: Result<u64, SimError>)
        ensures
            r == self@.persisting_l2_cache_size(device),
    {
        let _gpu = self.profile.gpu(device)?;
        let rt = self.known_device(device)?;
        Ok(rt.persist_limit)
    }

    /// Drop the persisting lines; the capacity stays.
    pub fn reset_persisting_l2_cache(&mut self, device: DeviceId) -> (r: Result<(), SimError>)
        ensures
            final(self)@ == old(self)@.reset_persisting_l2_cache(device).0,
            r == old(self)@.reset_persisting_l2_cache(device).1,
    {
        self.fail_if_capturing("cannot capture persisting L2")?;
        let _gpu = self.profile.gpu(device)?;
        let _known = self.known_device(device)?;
        let rt = self.gpu_rt_mut(device)?;
        rt.persist_lines = Vec::new();
        self.tick(1);
        Ok(())
    }

    /// Let every device persist its whole L2.
    pub fn enable_persisting_l2(&mut self) -> (r: Result<(), SimError>)
        ensures
            final(self)@ == old(self)@.enable_persisting_l2().0,
            r == old(self)@.enable_persisting_l2().1,
    {
        let mut i: usize = 0;
        while i < self.profile.gpus.len()
            invariant
                i <= self@.profile.gpus.len(),
                old(self)@.enable_persisting_l2() == self@.enable_persisting_l2_from(i as int),
            decreases self@.profile.gpus.len() - i,
        {
            let g = self.profile.gpus[i];
            if g.l2_bytes == 0 {
                return Err(invalid("l2 persist needs l2_bytes"));
            }
            self.set_persisting_l2_cache_size(g.id, g.l2_bytes)?;
            i += 1;
        }
        Ok(())
    }

    /// The limits with one changed, where the value is allowed.
    pub(crate) fn limits_with(
        &self,
        limits: DeviceLimits,
        limit: DeviceLimit,
        value: u64,
    ) -> (r: Result<DeviceLimits, SimError>)
        ensures
            r == self@.limits_with(limits, limit, value),
    {
        let mut out: DeviceLimits = limits;
        match limit {
            DeviceLimit::StackSize => {
                if value == 0 {
                    return Err(invalid("device limit"));
                }
                out.stack_size = value;
                Ok(out)
            },
            DeviceLimit::PrintfFifoSize => {
                if value == 0 {
                    return Err(invalid("device limit"));
                }
                out.printf_fifo = value;
                Ok(out)
            },
            DeviceLimit::MallocHeapSize => {
                out.malloc_heap = value;
                Ok(out)
            },
            DeviceLimit::DevRuntimeSyncDepth => {
                if value < 2 {
                    return Err(invalid("device limit"));
                }
                out.sync_depth = value;
                Ok(out)
            },
            DeviceLimit::DevRuntimePendingLaunchCount => {
                if value == 0 {
                    return Err(invalid("device limit"));
                }
                out.pending_launch = value;
                Ok(out)
            },
            DeviceLimit::MaxL2FetchGranularity => {
                if value != 32 && value != 64 && value != 128 {
                    return Err(invalid("l2 fetch granularity"));
                }
                out.l2_fetch = value;
                Ok(out)
            },
            DeviceLimit::PersistingL2CacheSize => Ok(out),
        }
    }

    /// Change a device limit.
    pub fn set_limit(
        &mut self,
        device: DeviceId,
        limit: DeviceLimit,
        value: u64,
    ) -> (r: Result<(), SimError>)
        ensures
            final(self)@ == old(self)@.set_limit(device, limit, value).0,
            r == old(self)@.set_limit(device, limit, value).1,
    {
        if limit == DeviceLimit::PersistingL2CacheSize {
            return self.set_persisting_l2_cache_size(device, value);
        }
        self.fail_if_capturing("cannot capture set limit")?;
        let _gpu = self.profile.gpu(device)?;
        let was = self.gpu_rt(device)?;
        let limits: DeviceLimits = self.limits_with(was.limits, limit, value)?;
        let rt = self.gpu_rt_mut(device)?;
        rt.limits = limits;
        self.tick(1);
        Ok(())
    }

    /// A device limit.
    pub fn get_limit(&self, device: DeviceId, limit: DeviceLimit) -> (r: Result<u64, SimError>)
        ensures
            r == self@.get_limit(device, limit),
    {
        if limit == DeviceLimit::PersistingL2CacheSize {
            return self.persisting_l2_cache_size(device);
        }
        let rt = self.gpu_rt(device)?;
        match limit {
            DeviceLimit::StackSize => Ok(rt.limits.stack_size),
            DeviceLimit::PrintfFifoSize => Ok(rt.limits.printf_fifo),
            DeviceLimit::MallocHeapSize => Ok(rt.limits.malloc_heap),
            DeviceLimit::DevRuntimeSyncDepth => Ok(rt.limits.sync_depth),
            DeviceLimit::DevRuntimePendingLaunchCount => Ok(rt.limits.pending_launch),
            DeviceLimit::MaxL2FetchGranularity => Ok(rt.limits.l2_fetch),
            DeviceLimit::PersistingL2CacheSize => Ok(rt.persist_limit),
        }
    }

    /// First GPU of the profile.
    pub(crate) fn first_gpu(&self) -> (r: Option<DeviceId>)
        ensures
            r == self@.first_gpu(),
    {
        if self.profile.gpus.len() == 0 {
            return None;
        }
        Some(self.profile.gpus[0].id)
    }

    /// Device that holds plain memory, or the one a range is mapped to first.
    pub(crate) fn home_of(&self, a: &Alloc) -> (r: Option<DeviceId>)
        ensures
            r == self@.home_of(a@),
    {
        if a.devices.len() > 0 {
            return a.first_device();
        }
        if a.vmm_maps.len() > 0 {
            return Some(a.vmm_maps[0].0);
        }
        None
    }

    /// What a pointer refers to.
    pub fn pointer_get_attributes(&self, id: AllocId) -> (r: Result<PointerAttributes, SimError>)
        ensures
            r == self@.pointer_get_attributes(id),
    {
        let a = self.alloc_ref(id)?;
        if !a.live {
            return Ok(
                PointerAttributes {
                    kind: MemoryType::Unregistered,
                    device: None,
                    device_pointer: false,
                    host_pointer: false,
                },
            );
        }
        if a.managed {
            return Ok(
                PointerAttributes {
                    kind: MemoryType::Managed,
                    device: a.first_device(),
                    device_pointer: true,
                    host_pointer: true,
                },
            );
        }
        if a.host_pageable || a.host_pinned {
            let at: Option<DeviceId> = if a.host_mapped {
                self.first_gpu()
            } else {
                None
            };
            return Ok(
                PointerAttributes {
                    kind: MemoryType::Host,
                    device: at,
                    device_pointer: a.host_mapped,
                    host_pointer: true,
                },
            );
        }
        Ok(
            PointerAttributes {
                kind: MemoryType::Device,
                device: self.home_of(a),
                device_pointer: true,
                host_pointer: false,
            },
        )
    }

    /// Device pointer of mapped host memory, which is the pointer itself.
    pub fn host_get_device_pointer(&self, id: AllocId) -> (r: Result<AllocId, SimError>)
        ensures
            r == self@.host_get_device_pointer(id),
    {
        let a = self.alloc_ref(id)?;
        if !a.live {
            return Err(SimError::UnknownAlloc { alloc: id });
        }
        if a.host_mapped {
            return Ok(id);
        }
        Err(invalid("not mapped"))
    }

    /// Bits that page-locked host memory was made with.
    pub fn host_get_flags(&self, id: AllocId) -> (r: Result<u32, SimError>)
        ensures
            r == self@.host_get_flags(id),
    {
        let a = self.alloc_ref(id)?;
        if !a.live {
            return Err(SimError::UnknownAlloc { alloc: id });
        }
        if a.managed || a.vmm || !(a.host_pinned || a.host_registered) {
            return Err(invalid("not host alloc"));
        }
        if a.host_mapped {
            Ok(HostAllocFlags::MAPPED)
        } else {
            Ok(HostAllocFlags::DEFAULT)
        }
    }

    /// A device attribute.
    pub fn device_get_attribute(
        &self,
        device: DeviceId,
        attr: DeviceAttr,
    ) -> (r: Result<u64, SimError>)
        ensures
            r == self@.device_get_attribute(device, attr),
    {
        let gpu = self.profile.gpu(device)?;
        match attr {
            DeviceAttr::CooperativeLaunch => Ok(bit(gpu.cooperative_launch)),
            DeviceAttr::ConcurrentKernels => Ok(bit(gpu.compute_slots > 1)),
            DeviceAttr::MaxSharedMemoryPerBlock => Ok(gpu.max_shared_mem_per_block as u64),
            DeviceAttr::MaxSharedMemoryPerBlockOptin => Ok(
                gpu.max_shared_mem_per_block_optin as u64,
            ),
            DeviceAttr::L2CacheSize | DeviceAttr::MaxPersistingL2CacheSize => Ok(gpu.l2_bytes),
            DeviceAttr::MaxBlocksPerCluster => Ok(gpu.max_blocks_per_cluster as u64),
            DeviceAttr::MemSyncDomainCount => Ok(gpu.mem_sync_domain_count as u64),
            DeviceAttr::TotalGlobalMem => Ok(gpu.hbm_bytes),
            DeviceAttr::AsyncEngineCount => Ok(gpu.copy_engines as u64),
            DeviceAttr::ClusterLaunch => Ok(bit(gpu.max_blocks_per_cluster > 0)),
            DeviceAttr::MemoryPoolSupportedHandleTypes => Ok(MemHandleType::POSIX_FILE_DESCRIPTOR),
            DeviceAttr::MemoryPoolsSupported | DeviceAttr::CanMapHostMemory | DeviceAttr::ManagedMemory => Ok(1),
            DeviceAttr::HostRegisterSupported | DeviceAttr::IpcEventSupport | DeviceAttr::CanUseHostPointerForRegisteredMem => Ok(1),
        }
    }

    /// Properties of a device.
    pub fn device_get_properties(&self, device: DeviceId) -> (r: Result<DeviceProperties, SimError>)
        ensures
            ok_view(r) == self@.device_get_properties(device),
    {
        let gpu = self.profile.gpu(device)?;
        Ok(
            DeviceProperties {
                name: self.profile.name.clone(),
                total_global_mem: gpu.hbm_bytes,
                shared_mem_per_block: gpu.max_shared_mem_per_block,
                shared_mem_per_block_optin: gpu.max_shared_mem_per_block_optin,
                l2_cache_size: gpu.l2_bytes,
                async_engine_count: gpu.copy_engines as u32,
                concurrent_kernels: gpu.compute_slots > 1,
                cooperative_launch: gpu.cooperative_launch,
                max_blocks_per_cluster: gpu.max_blocks_per_cluster as u32,
                portable_cluster_size: gpu.portable_cluster_size as u32,
                mem_sync_domain_count: gpu.mem_sync_domain_count as u32,
                memory_pools_supported: true,
                can_map_host_memory: true,
                managed_memory: true,
                cluster_launch: gpu.max_blocks_per_cluster > 0,
                host_register_supported: true,
                ipc_event_support: true,
                can_use_host_pointer_for_registered_mem: true,
                memory_pool_supported_handle_types: MemHandleType::POSIX_FILE_DESCRIPTOR,
            },
        )
    }

    /// Number of devices.
    pub fn device_count(&self) -> (r: u32)
        ensures
            r == self@.device_count(),
    {
        clamp_u32(self.profile.gpus.len())
    }

    /// Whether a link joins two devices.
    pub fn device_can_access_peer(
        &self,
        device: DeviceId,
        peer: DeviceId,
    ) -> (r: Result<bool, SimError>)
        ensures
            r == self@.device_can_access_peer(device, peer),
    {
        let yes: u64 = self.device_get_p2p_attribute(device, peer, DeviceP2pAttr::AccessSupported)?;
        Ok(yes != 0)
    }

    /// An attribute of two devices.
    pub fn device_get_p2p_attribute(
        &self,
        src: DeviceId,
        dst: DeviceId,
        attr: DeviceP2pAttr,
    ) -> (r: Result<u64, SimError>)
        ensures
            r == self@.device_get_p2p_attribute(src, dst, attr),
    {
        let _src = self.profile.gpu(src)?;
        let _dst = self.profile.gpu(dst)?;
        match attr {
            DeviceP2pAttr::AccessSupported => if src == dst || self.profile.link_index(
                Some(src),
                Some(dst),
            ).is_none() {
                Ok(0)
            } else {
                Ok(1)
            },
            DeviceP2pAttr::PerformanceRank => Ok(self.profile.p2p_performance_rank(src, dst)),
        }
    }

    /// Allow clusters above the portable size.
    pub fn set_non_portable_cluster_size_allowed(
        &mut self,
        device: DeviceId,
        allowed: bool,
    ) -> (r: Result<(), SimError>)
        ensures
            final(self)@ == old(self)@.set_non_portable_cluster_size_allowed(device, allowed).0,
            r == old(self)@.set_non_portable_cluster_size_allowed(device, allowed).1,
    {
        let _gpu = self.profile.gpu(device)?;
        if allowed {
            let _new = self.non_portable_cluster.insert(device);
        } else {
            let _was = self.non_portable_cluster.remove(device);
        }
        self.tick(1);
        Ok(())
    }

    /// Whether clusters above the portable size are allowed.
    pub fn non_portable_cluster_size_allowed(&self, device: DeviceId) -> (r: bool)
        ensures
            r == self@.non_portable_cluster_size_allowed(device),
    {
        self.non_portable_cluster.contains(device)
    }

    /// Allow dynamic shared memory up to `bytes`; `0` is the default.
    pub fn set_max_dynamic_shared_memory(
        &mut self,
        device: DeviceId,
        bytes: u32,
    ) -> (r: Result<(), SimError>)
        ensures
            final(self)@ == old(self)@.set_max_dynamic_shared_memory(device, bytes).0,
            r == old(self)@.set_max_dynamic_shared_memory(device, bytes).1,
    {
        let gpu = self.profile.gpu(device)?;
        if bytes > max_u32(gpu.max_shared_mem_per_block_optin, 1) {
            return Err(invalid("max dynamic shared"));
        }
        if bytes == 0 {
            let _was = self.max_dynamic_shared.remove(device);
        } else {
            self.max_dynamic_shared.insert(device, bytes);
        }
        self.tick(1);
        Ok(())
    }

    /// Function attributes of a device.
    pub fn func_get_attributes(&self, device: DeviceId) -> (r: Result<FuncAttributes, SimError>)
        ensures
            r == self@.func_get_attributes(device),
    {
        let _gpu = self.profile.gpu(device)?;
        Ok(FuncAttributes {
            max_dynamic_shared_size_bytes: self.max_dynamic_shared_memory(device),
            non_portable_cluster_size_allowed: self.non_portable_cluster_size_allowed(device),
        })
    }

    /// Change a function attribute.
    pub fn func_set_attribute(
        &mut self,
        device: DeviceId,
        attr: FuncAttr,
        value: i32,
    ) -> (r: Result<(), SimError>)
        ensures
            final(self)@ == old(self)@.func_set_attribute(device, attr, value).0,
            r == old(self)@.func_set_attribute(device, attr, value).1,
    {
        if value < 0 {
            return Err(invalid("func attr"));
        }
        match attr {
            FuncAttr::MaxDynamicSharedMemorySize => self.set_max_dynamic_shared_memory(
                device,
                value as u32,
            ),
            FuncAttr::NonPortableClusterSizeAllowed => {
                if value != 0 && value != 1 {
                    return Err(invalid("func attr"));
                }
                self.set_non_portable_cluster_size_allowed(device, value != 0)
            },
        }
    }

    /// A function attribute.
    pub fn func_get_attribute(&self, device: DeviceId, attr: FuncAttr) -> (r: Result<i32, SimError>)
        ensures
            r == self@.func_get_attribute(device, attr),
    {
        let _gpu = self.profile.gpu(device)?;
        match attr {
            FuncAttr::MaxDynamicSharedMemorySize => {
                let bytes: u32 = self.max_dynamic_shared_memory(device);
                if bytes > 0x7fff_ffff {
                    return Err(invalid("func attr"));
                }
                Ok(bytes as i32)
            },
            FuncAttr::NonPortableClusterSizeAllowed => Ok(
                bit(self.non_portable_cluster_size_allowed(device)) as i32,
            ),
        }
    }
}

} // verus!
