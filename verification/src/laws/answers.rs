//! What the simulator answers about devices and memory, and what it refuses.
use vstd::prelude::*;
use crate::error::SimError;
use crate::ids::{AllocId, DeviceId, GraphId, OpId, PoolId};
use crate::laws::costs::{first_link_is_used, held, joins, no_less};
use crate::laws::frames::refund_device_keeps_allocs;
use crate::laws::holdings::removed_is_gone;
use crate::laws::launching::is_plain;
use crate::laws::refused::refused;
use crate::list::lemma_first_where;
use crate::ops::{
    ClusterDim, DeviceAttr, DeviceP2pAttr, GraphInstantiateFlags, GraphMemAttr, MemAccessFlags,
    MemHandleType, MemoryType, PortableClusterMode, PortableSharedMode,
};
use crate::persist::persist_discount;
use crate::profile::GpuProfile;
use crate::sim::SimState;
use crate::state::{Alloc, AllocView, Attach};

verus! {

/// The number of a truth value.
pub open spec fn truth(yes: bool) -> u64 {
    if yes {
        1
    } else {
        0
    }
}

/// The attributes of a device are those of its profile, and its properties are its attributes.
pub proof fn attributes_are_of_profile(s: SimState, device: DeviceId, g: GpuProfile)
    requires
        s.profile.gpu(device) == Ok::<GpuProfile, SimError>(g),
    ensures
        ({
            let of = |a: DeviceAttr| s.device_get_attribute(device, a)->Ok_0;
            let p = s.device_get_properties(device)->Ok_0;
            &&& forall|a: DeviceAttr| (#[trigger] s.device_get_attribute(device, a)) is Ok
            &&& of(DeviceAttr::TotalGlobalMem) == g.hbm_bytes
            &&& of(DeviceAttr::L2CacheSize) == g.l2_bytes
            &&& of(DeviceAttr::MaxPersistingL2CacheSize) == g.l2_bytes
            &&& of(DeviceAttr::MaxSharedMemoryPerBlock) == g.max_shared_mem_per_block
            &&& of(DeviceAttr::MaxSharedMemoryPerBlockOptin) == g.max_shared_mem_per_block_optin
            &&& of(DeviceAttr::MaxBlocksPerCluster) == g.max_blocks_per_cluster
            &&& of(DeviceAttr::MemSyncDomainCount) == g.mem_sync_domain_count
            &&& of(DeviceAttr::AsyncEngineCount) == g.copy_engines
            &&& of(DeviceAttr::CooperativeLaunch) == truth(g.cooperative_launch)
            &&& of(DeviceAttr::ConcurrentKernels) == truth(g.compute_slots >= 2)
            &&& of(DeviceAttr::ClusterLaunch) == truth(g.max_blocks_per_cluster >= 1)
            &&& of(DeviceAttr::CanMapHostMemory) == 1
            &&& of(DeviceAttr::ManagedMemory) == 1
            &&& of(DeviceAttr::MemoryPoolsSupported) == 1
            &&& of(DeviceAttr::HostRegisterSupported) == 1
            &&& of(DeviceAttr::IpcEventSupport) == 1
            &&& of(DeviceAttr::CanUseHostPointerForRegisteredMem) == 1
            &&& of(DeviceAttr::MemoryPoolSupportedHandleTypes)
                == MemHandleType::POSIX_FILE_DESCRIPTOR
            &&& s.device_get_properties(device) is Ok
            &&& p.total_global_mem == of(DeviceAttr::TotalGlobalMem)
            &&& p.l2_cache_size == of(DeviceAttr::L2CacheSize)
            &&& p.shared_mem_per_block == of(DeviceAttr::MaxSharedMemoryPerBlock)
            &&& p.shared_mem_per_block_optin == of(DeviceAttr::MaxSharedMemoryPerBlockOptin)
            &&& p.max_blocks_per_cluster == of(DeviceAttr::MaxBlocksPerCluster)
            &&& p.mem_sync_domain_count == of(DeviceAttr::MemSyncDomainCount)
            &&& p.async_engine_count == of(DeviceAttr::AsyncEngineCount)
            &&& p.portable_cluster_size == g.portable_cluster_size
            &&& truth(p.cooperative_launch) == of(DeviceAttr::CooperativeLaunch)
            &&& truth(p.concurrent_kernels) == of(DeviceAttr::ConcurrentKernels)
            &&& truth(p.cluster_launch) == of(DeviceAttr::ClusterLaunch)
        }),
{
}

/// Two different devices reach each other exactly where a link joins them, in both directions.
pub proof fn peers_are_linked(s: SimState, a: DeviceId, b: DeviceId)
    requires
        s.profile.gpu(a) is Ok,
        s.profile.gpu(b) is Ok,
        s.profile.links.len() <= usize::MAX,
    ensures
        s.device_can_access_peer(a, b) is Ok,
        s.device_can_access_peer(a, b)->Ok_0 <==> a != b && exists|i: int|
            0 <= i < s.profile.links.len() && joins(
                #[trigger] s.profile.links[i],
                Some(a),
                Some(b),
            ),
        s.device_can_access_peer(b, a) == s.device_can_access_peer(a, b),
        s.device_get_p2p_attribute(a, b, DeviceP2pAttr::AccessSupported) == Ok::<u64, SimError>(
            truth(s.device_can_access_peer(a, b)->Ok_0),
        ),
        a == b ==> s.device_get_p2p_attribute(a, b, DeviceP2pAttr::PerformanceRank) == Ok::<
            u64,
            SimError,
        >(0),
{
    first_link_is_used(s.profile, Some(a), Some(b));
    first_link_is_used(s.profile, Some(b), Some(a));
    assert forall|i: int|
        0 <= i < s.profile.links.len() implies joins(
            #[trigger] s.profile.links[i],
            Some(a),
            Some(b),
        )
        == joins(s.profile.links[i], Some(b), Some(a)) by {}
}

/// A pointer is of the kind of its memory. A host pointer has a device pointer exactly where it is
/// mapped, and device memory has no host pointer.
pub proof fn pointers_are_of_their_memory(s: SimState, id: AllocId)
    requires
        s.allocs.contains_key(id),
    ensures
        ({
            let a = s.allocs[id];
            let p = s.pointer_get_attributes(id)->Ok_0;
            let on_host = !a.managed && (a.host_pageable || a.host_pinned);
            &&& s.pointer_get_attributes(id) is Ok
            &&& p.kind == MemoryType::Unregistered <==> !a.live
            &&& p.kind == MemoryType::Managed <==> a.live && a.managed
            &&& p.kind == MemoryType::Host <==> a.live && on_host
            &&& p.kind == MemoryType::Device <==> a.live && !a.managed && !on_host
            &&& p.host_pointer <==> a.live && (a.managed || on_host)
            &&& p.device_pointer <==> a.live && (!on_host || a.host_mapped)
            &&& a.live && !on_host && a.devices.len() > 0 ==> p.device == Some(a.devices[0])
            &&& s.host_get_device_pointer(id) is Ok <==> a.live && a.host_mapped
            &&& s.host_get_device_pointer(id) is Ok ==> s.host_get_device_pointer(id)->Ok_0 == id
        }),
{
}

/// A cluster has as many blocks as its sides make. It is refused where the device takes no cluster of
/// that size, and where it is larger than a portable one and that is not allowed.
pub proof fn clusters_fit_the_device(
    s: SimState,
    device: DeviceId,
    dim: ClusterDim,
    mode: PortableClusterMode,
    g: GpuProfile,
)
    requires
        s.profile.gpu(device) == Ok::<GpuProfile, SimError>(g),
    ensures
        ({
            let n = dim.x * dim.y * dim.z;
            let allowed = match mode {
                PortableClusterMode::Default => s.non_portable_cluster.contains(device),
                PortableClusterMode::RequirePortable => false,
                PortableClusterMode::AllowNonPortable => true,
            };
            let r = s.validate_cluster(device, dim, mode);
            &&& r is Ok <==> n > 0 && n <= no_less(g.max_blocks_per_cluster as int, 1) && (n
                <= no_less(g.portable_cluster_size as int, 1) || allowed)
            &&& r is Ok ==> r->Ok_0 == n
        }),
{
    let x = dim.x as int;
    let y = dim.y as int;
    let z = dim.z as int;
    assert(x == 0 || y == 0 || z == 0 ==> x * y * z == 0) by (nonlinear_arith)
        requires
            x >= 0 && y >= 0 && z >= 0,
    ;
    assert(x > 0 && y > 0 && z > 0 ==> x * y * z >= x * y && x * y > 0) by (nonlinear_arith)
        requires
            x >= 0 && y >= 0 && z >= 0,
    ;
}

/// Dynamic shared memory is taken up to what the device can have, and beyond what every launch may
/// take only where the launch or the function allows it.
pub proof fn shared_memory_fits_the_device(
    s: SimState,
    device: DeviceId,
    bytes: u32,
    mode: PortableSharedMode,
    g: GpuProfile,
)
    requires
        s.profile.gpu(device) == Ok::<GpuProfile, SimError>(g),
    ensures
        ({
            let portable = no_less(g.max_shared_mem_per_block as int, 1);
            let most = no_less(g.max_shared_mem_per_block_optin as int, portable);
            let allowed = match mode {
                PortableSharedMode::Default => s.max_dynamic_shared.contains_key(device) && bytes
                    <= s.max_dynamic_shared[device],
                PortableSharedMode::RequirePortable => false,
                PortableSharedMode::AllowNonPortable => true,
            };
            s.validate_dynamic_shared(device, bytes, mode) is Ok <==> bytes == 0 || (bytes <= most
                && (bytes <= portable || allowed))
        }),
{
}

/// Memory of graphs is never below its high mark, and a high mark that is reset is what there is.
pub proof fn high_marks_are_kept(s: SimState, device: DeviceId)
    requires
        s.graph_mem_get(device, GraphMemAttr::UsedMemCurrent) is Ok,
    ensures
        ({
            let of = |t: SimState, a: GraphMemAttr| t.graph_mem_get(device, a)->Ok_0;
            let (t, r) = s.graph_mem_set(device, GraphMemAttr::UsedMemHigh, 0);
            let (u, q) = s.graph_mem_set(device, GraphMemAttr::ReservedMemHigh, 0);
            &&& of(s, GraphMemAttr::UsedMemHigh) >= of(s, GraphMemAttr::UsedMemCurrent)
            &&& of(s, GraphMemAttr::ReservedMemHigh) >= of(s, GraphMemAttr::ReservedMemCurrent)
            &&& of(s, GraphMemAttr::ReservedMemCurrent) >= of(s, GraphMemAttr::UsedMemCurrent)
            &&& r is Ok ==> of(t, GraphMemAttr::UsedMemHigh) == of(s, GraphMemAttr::UsedMemCurrent)
                && of(t, GraphMemAttr::ReservedMemHigh) == of(s, GraphMemAttr::ReservedMemHigh)
            &&& q is Ok ==> of(u, GraphMemAttr::ReservedMemHigh)
                == of(s, GraphMemAttr::ReservedMemCurrent) && of(u, GraphMemAttr::UsedMemHigh)
                == of(s, GraphMemAttr::UsedMemHigh)
        }),
{
}

/// The high marks of graph memory follow it up and never come down by themselves.
pub proof fn high_marks_rise(s: SimState, device: DeviceId)
    requires
        s.bump_graph_mem_high(device).1 is Ok,
    ensures
        ({
            let t = s.bump_graph_mem_high(device).0;
            let used = s.graph_mem_get(device, GraphMemAttr::UsedMemCurrent)->Ok_0;
            let reserved = s.graph_mem_get(device, GraphMemAttr::ReservedMemCurrent)->Ok_0;
            &&& t.gpus[device].graph_used_high == no_less(
                s.gpus[device].graph_used_high as int,
                used as int,
            )
            &&& t.gpus[device].graph_reserved_high == no_less(
                s.gpus[device].graph_reserved_high as int,
                reserved as int,
            )
            &&& t.pools == s.pools
        }),
{
}

/// A device may read and write the memory of a pool exactly where the pool is its own or it was given
/// access.
pub proof fn pool_access_is_told(s: SimState, pool: PoolId, device: DeviceId)
    requires
        s.pool_get_access(pool, device) is Ok,
    ensures
        ({
            let p = s.pools[pool];
            let r = s.pool_get_access(pool, device)->Ok_0;
            &&& r == MemAccessFlags::PROT_READ_WRITE || r == MemAccessFlags::PROT_NONE
            &&& r == MemAccessFlags::PROT_READ_WRITE <==> p.device == device
                || p.accessed_by.contains(device)
        }),
{
}

/// A copy of memory that is mostly read can be dropped from a device that has one, while another
/// device has one too. That device holds it no longer, and has its bytes back.
pub proof fn dropped_copy_is_given_back(
    s: SimState,
    alloc: AllocId,
    device: DeviceId,
    x: DeviceId,
)
    requires
        s.drop_managed_copy(alloc, device).1 is Ok,
    ensures
        ({
            let t = s.drop_managed_copy(alloc, device).0;
            let a = s.allocs[alloc];
            let b = t.allocs[alloc];
            &&& a.live && a.managed && a.read_mostly && a.leases == 0
            &&& a.devices.contains(device)
            &&& a.devices.len() >= 2
            &&& b.devices.contains(x) <==> a.devices.contains(x) && x != device
            &&& b == (AllocView { devices: b.devices, ..a })
            &&& a.pool is None ==> t.gpus[device].used == no_less(
                s.gpus[device].used - a.bytes,
                0,
            )
        }),
{
    let a = s.allocs[alloc];
    refund_device_keeps_allocs(s, device, alloc, a.bytes);
    removed_is_gone(a.devices, device, x);
}

/// An operation that ends pays for what is still in flight in its memory synchronization domain: the
/// part of the longest time left that its GPU charges. It pays once.
pub proof fn fence_costs_its_part(s: SimState, id: OpId, g: GpuProfile)
    requires
        s.ops.contains_key(id),
        s.profile.gpu(s.ops[id].device) == Ok::<GpuProfile, SimError>(g),
    ensures
        ({
            let op = s.ops[id];
            let longest = s.domain_leftover(id, op.device, op.attrs.mem_sync_physical);
            let extra = s.same_domain_fence_extra(id);
            let t = s.pay_fence(id, extra);
            &&& op.domain_fence_paid || !op.kind.mem_sync_kind() ==> extra == 0
            &&& !op.domain_fence_paid && op.kind.mem_sync_kind() ==> extra == held(
                longest * g.same_domain_fence_permille,
            ) / 1000
            &&& t.ops[id].domain_fence_paid
            &&& t.same_domain_fence_extra(id) == 0
        }),
{
    reveal(SimState::pay_fence);
}

/// Without a window of persisting lines a kernel moves all of its bytes, and with one it moves no
/// more. The part that is held moves at the rate of the hits.
pub proof fn held_lines_save_traffic(bytes: u64, hit: u64, touch: u64, permille: u64)
    requires
        bytes * 1000 <= u64::MAX,
        hit * 1000 <= u64::MAX,
        hit <= touch,
        permille <= 1000,
    ensures
        persist_discount(bytes, hit, touch, permille) <= bytes,
        hit == 0 ==> persist_discount(bytes, hit, touch, permille) == bytes,
        permille == 0 ==> persist_discount(bytes, hit, touch, permille) == bytes,
        0 < hit == touch ==> persist_discount(bytes, hit, touch, permille) == bytes * (1000
            - permille) / 1000,
{
    if hit != 0 {
        let frac = hit * 1000 / touch as int;
        assert(0 <= hit * 1000 / touch as int <= 1000) by (nonlinear_arith)
            requires
                0 < hit <= touch,
        ;
        assert(hit == touch ==> hit * 1000 / touch as int == 1000) by (nonlinear_arith)
            requires
                0 < hit <= touch,
        ;
        let d = frac * permille / 1000;
        assert(0 <= frac * permille <= 1000 * 1000) by (nonlinear_arith)
            requires
                0 <= frac <= 1000,
                0 <= permille <= 1000,
        ;
        assert(0 <= bytes * (1000 - d) <= bytes * 1000) by (nonlinear_arith)
            requires
                0 <= d <= 1000,
                bytes >= 0,
        ;
        assert(permille == 0 ==> frac * permille == 0) by (nonlinear_arith);
    }
}

/// A definition is instantiated only with flags that are known, with all its nodes on its own GPU.
/// One that frees its memory before a launch frees none itself, and one that is launched from the
/// device has no node that only the host can launch.
pub proof fn instantiated_graph_is_allowed(s: SimState, graph: GraphId, flags: u32, i: int)
    requires
        s.instantiate_graph_with_flags(graph, flags).1 is Ok,
        !s.graphs[graph].instantiated,
        0 <= i < s.graphs[graph].steps.len(),
        !s.graphs[graph].steps[i].destroyed,
    ensures
        ({
            let g = s.graphs[graph];
            let x = g.steps[i];
            &&& s.capturing is None
            &&& s.graphs.contains_key(graph)
            &&& x.device == g.origin.0
            &&& flags & GraphInstantiateFlags::AUTO_FREE_ON_LAUNCH != 0 ==> !(x.kind is Free)
            &&& flags & GraphInstantiateFlags::DEVICE_LAUNCH != 0 ==> {
                &&& is_plain(x.kind)
                &&& !(x.kind is Alloc) && !(x.kind is Free) && !(x.kind is HostFunc)
                &&& !(x.kind is EventRecord) && !(x.kind is EventWait)
                &&& !(x.kind is AllReduce) && !(x.kind is Attach)
                &&& x.attrs.programmatic_event is None && x.attrs.launch_completion is None
            }
            &&& x.kind is Alloc || x.kind is Free ==> g.primary_exec is None
        }),
{
    let g = s.graphs[graph];
    let foreign = |k: int| g.first_foreign_at(k);
    let freed = |k: int| g.first_free_at(k);
    let refused = |k: int| g.first_refused_at(k);
    let mem = |k: int| g.first_mem_at(k);
    lemma_first_where(g.steps.len(), foreign);
    lemma_first_where(g.steps.len(), freed);
    lemma_first_where(g.steps.len(), refused);
    lemma_first_where(g.steps.len(), mem);
    assert(foreign(i) == g.first_foreign_at(i));
    assert(freed(i) == g.first_free_at(i));
    assert(refused(i) == g.first_refused_at(i));
    assert(mem(i) == g.first_mem_at(i));
}

} // verus!
