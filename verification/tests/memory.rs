//! Allocation, pools, ranges and interprocess handles.
use gpu_sim::error::SimError;
use gpu_sim::ids::{AllocId, DeviceId, StreamId};
use gpu_sim::ops::{GraphMemAttr, HostAllocFlags, MemAccessFlags, MemAdvise, MemAttach, MemPoolAttr, MemoryType};
use gpu_sim::profile::{GpuProfile, HardwareProfile, Link, LinkKind};
use gpu_sim::sim::Sim;


const D0: DeviceId = DeviceId(0);
const D1: DeviceId = DeviceId(1);
const S1: StreamId = StreamId(1);

fn gpu(id: u16) -> GpuProfile {
    GpuProfile {
        id: DeviceId(id),
        hbm_bytes: 1000,
        hbm_bps: 1_000_000_000,
        compute_slots: 2,
        copy_engines: 1,
        cooperative_launch: true,
        flops_f32: 1_000_000_000,
        flops_f16: 1_000_000_000,
        flops_f8: 1_000_000_000,
        alloc_overhead_ns: 10,
        pool_reuse_ns: 3,
        launch_overhead_ns: 5,
        graph_launch_ns: 7,
        graph_instantiate_ns: 11,
        graph_upload_ns: 13,
        graph_update_ns: 17,
        graph_set_params_ns: 19,
        graph_clone_ns: 23,
        host_func_ns: 29,
        host_sync_spin_ns: 1,
        host_sync_yield_ns: 2,
        host_sync_blocking_ns: 3,
        l2_bytes: 256,
        l2_persist_hit_permille: 500,
        pdl_trigger_permille: 500,
        gemm_util_permille: 1000,
        grouped_moe_permille: 2000,
        shared_mem_four_byte_permille: 1000,
        shared_mem_eight_byte_permille: 500,
        same_domain_fence_permille: 0,
        mem_sync_domain_count: 4,
        max_blocks_per_cluster: 8,
        portable_cluster_size: 4,
        max_shared_mem_per_block: 48,
        max_shared_mem_per_block_optin: 96,
    }
}

fn link(a: Option<u16>, b: Option<u16>, kind: LinkKind, bps: u64, latency_ns: u64) -> Link {
    Link {
        a: a.map(DeviceId),
        b: b.map(DeviceId),
        kind,
        bps,
        pageable_bps: bps / 2,
        latency_ns,
    }
}

fn node() -> Sim {
    Sim::new(HardwareProfile {
        name: String::from("pair"),
        gpus: vec![gpu(0), gpu(1)],
        links: vec![
            link(None, Some(0), LinkKind::Pcie, 1_000_000_000, 100),
            link(None, Some(1), LinkKind::Pcie, 1_000_000_000, 100),
            link(Some(0), Some(1), LinkKind::Nvlink, 2_000_000_000, 50),
        ],
        host_pin_bytes: 500,
        va_granularity_bytes: 1,
        multicast_granularity_bytes: 1,
    })
}

fn invalid<T>(why: &'static str) -> Result<T, SimError> {
    Err(SimError::Invalid { why })
}

#[test]
fn malloc_charges_and_free_refunds() {
    let mut sim = node();
    assert_eq!(sim.mem_info(D0), Ok((1000, 1000)));
    let a = sim.malloc(D0, 100);
    assert_eq!(a, Ok(AllocId(1)));
    assert_eq!(sim.clock_ns(), 10);
    assert_eq!(sim.mem_info(D0), Ok((900, 1000)));
    assert_eq!(sim.mem_info(D1), Ok((1000, 1000)));
    assert_eq!(sim.is_resident(AllocId(1), D0), Ok(true));
    assert_eq!(sim.is_resident(AllocId(1), D1), Ok(false));
    assert_eq!(sim.hbm_peak(), 100);
    assert_eq!(sim.free_sync(AllocId(1)), Ok(()));
    assert_eq!(sim.mem_info(D0), Ok((1000, 1000)));
    assert_eq!(sim.hbm_peak(), 100);
    assert_eq!(sim.free_sync(AllocId(1)), Err(SimError::UnknownAlloc { alloc: AllocId(1) }));
}

#[test]
fn malloc_refuses_what_does_not_fit() {
    let mut sim = node();
    assert_eq!(sim.malloc(D0, 1001), Err(SimError::Oom { device: D0, need: 1001, free: 1000 }));
    assert_eq!(sim.malloc(D0, 0), invalid("zero-byte alloc"));
    assert_eq!(sim.malloc(DeviceId(7), 1), invalid("unknown device"));
    assert_eq!(sim.malloc(D0, 1000), Ok(AllocId(1)));
    assert_eq!(sim.malloc(D0, 1), Err(SimError::Oom { device: D0, need: 1, free: 0 }));
}

#[test]
fn pitched_allocations_round_the_row_up() {
    let mut sim = node();
    assert_eq!(sim.malloc_pitch(D0, 10, 1), Ok((AllocId(1), 512)));
    assert_eq!(sim.hbm_used(D0), Ok(512));
    assert_eq!(sim.malloc_pitch(D0, 0, 1), invalid("malloc pitch"));
    assert_eq!(sim.malloc_3d(D0, 1, 1, 0), invalid("malloc 3d"));
    assert_eq!(
        sim.malloc_3d(D1, 513, 1, 1),
        Err(SimError::Oom { device: D1, need: 1024, free: 1000 }),
    );
}

#[test]
fn page_locked_memory_has_a_budget() {
    let mut sim = node();
    let a = sim.alloc_host_pinned(400);
    assert_eq!(a, Ok(AllocId(1)));
    assert_eq!(sim.pin_used(), 400);
    assert_eq!(sim.alloc_host_mapped(200), Err(SimError::PinOom { need: 200, free: 100 }));
    assert_eq!(sim.free_host_pinned(AllocId(1)), Ok(()));
    assert_eq!(sim.pin_used(), 0);
    assert_eq!(sim.alloc_host_with_flags(1, 0x80), invalid("host alloc flags"));
}

#[test]
fn registering_host_memory_pins_it() {
    let mut sim = node();
    let a = sim.alloc_host(50);
    assert_eq!(a, Ok(AllocId(1)));
    assert_eq!(sim.pin_used(), 0);
    assert_eq!(sim.is_host_pageable(AllocId(1)), Ok(true));
    assert_eq!(sim.host_get_flags(AllocId(1)), invalid("not host alloc"));
    assert_eq!(sim.host_register_mapped(AllocId(1)), Ok(()));
    assert_eq!(sim.pin_used(), 50);
    assert_eq!(sim.is_host_mapped(AllocId(1)), Ok(true));
    assert_eq!(sim.host_get_flags(AllocId(1)), Ok(HostAllocFlags::MAPPED));
    assert_eq!(sim.host_get_device_pointer(AllocId(1)), Ok(AllocId(1)));
    assert_eq!(sim.host_register(AllocId(1)), invalid("not pageable host"));
    assert_eq!(sim.free_host(AllocId(1)), Err(SimError::UnknownAlloc { alloc: AllocId(1) }));
    assert_eq!(sim.host_unregister(AllocId(1)), Ok(()));
    assert_eq!(sim.pin_used(), 0);
    assert_eq!(sim.free_host(AllocId(1)), Ok(()));
}

#[test]
fn managed_memory_moves_on_prefetch() {
    let mut sim = node();
    let a = sim.alloc_managed(64);
    assert_eq!(a, Ok(AllocId(1)));
    assert_eq!(sim.hbm_used(D0), Ok(0));
    assert_eq!(sim.clock_ns(), 10);
    assert!(sim.prefetch(D0, AllocId(1), S1).is_ok());
    assert_eq!(sim.synchronize(), Ok(()));
    assert_eq!(sim.clock_ns(), 10 + 100 + 64);
    assert_eq!(sim.hbm_used(D0), Ok(64));
    assert_eq!(sim.is_resident(AllocId(1), D0), Ok(true));
    assert!(sim.prefetch(D1, AllocId(1), S1).is_ok());
    assert_eq!(sim.synchronize(), Ok(()));
    assert_eq!(sim.clock_ns(), 174 + 50 + 32);
    assert_eq!(sim.hbm_used(D0), Ok(0));
    assert_eq!(sim.hbm_used(D1), Ok(64));
}

#[test]
fn read_mostly_memory_is_replicated() {
    let mut sim = node();
    assert_eq!(sim.alloc_managed(64), Ok(AllocId(1)));
    assert_eq!(sim.mem_advise(AllocId(1), MemAdvise::SetReadMostly, D0), Ok(()));
    assert_eq!(sim.is_read_mostly(AllocId(1)), Ok(true));
    assert!(sim.prefetch(D0, AllocId(1), S1).is_ok());
    assert_eq!(sim.synchronize(), Ok(()));
    assert!(sim.prefetch(D1, AllocId(1), S1).is_ok());
    assert_eq!(sim.synchronize(), Ok(()));
    assert_eq!(sim.hbm_used(D0), Ok(64));
    assert_eq!(sim.hbm_used(D1), Ok(64));
    assert_eq!(sim.drop_managed_copy(AllocId(1), D0), Ok(()));
    assert_eq!(sim.hbm_used(D0), Ok(0));
    assert_eq!(sim.drop_managed_copy(AllocId(1), D1), invalid("last managed copy"));
}

#[test]
fn advice_reads_back() {
    let mut sim = node();
    assert_eq!(sim.alloc_managed(8), Ok(AllocId(1)));
    assert_eq!(sim.mem_advise(AllocId(1), MemAdvise::SetPreferredLocation, D1), Ok(()));
    assert_eq!(sim.is_preferred_location(AllocId(1), D1), Ok(true));
    assert_eq!(sim.is_preferred_location(AllocId(1), D0), Ok(false));
    assert_eq!(sim.mem_advise(AllocId(1), MemAdvise::SetPreferredLocationHost, D0), Ok(()));
    assert_eq!(sim.is_preferred_host(AllocId(1)), Ok(true));
    assert_eq!(sim.mem_advise(AllocId(1), MemAdvise::SetAccessedBy, D0), Ok(()));
    assert_eq!(sim.is_accessed_by(AllocId(1), D0), Ok(true));
    assert_eq!(sim.mem_advise(AllocId(1), MemAdvise::UnsetAccessedBy, D0), Ok(()));
    assert_eq!(sim.is_accessed_by(AllocId(1), D0), Ok(false));
    assert_eq!(sim.mem_attach(AllocId(1)), Ok(MemAttach::Global));
    assert_eq!(sim.malloc(D0, 8), Ok(AllocId(2)));
    assert_eq!(sim.mem_advise(AllocId(2), MemAdvise::SetReadMostly, D0), invalid("not managed"));
}

#[test]
fn freed_pool_memory_is_cached_up_to_the_threshold() {
    let mut sim = node();
    let pool = sim.default_pool(D0).ok().expect("pool");
    assert_eq!(sim.set_pool_release_threshold(pool, 60), Ok(()));
    assert_eq!(sim.pool_get_attribute(pool, MemPoolAttr::ReleaseThreshold), Ok(60));
    let a = sim.alloc_async(D0, 100, S1).ok().expect("alloc");
    assert_eq!(sim.synchronize(), Ok(()));
    assert_eq!(sim.pool_live(pool), Ok(100));
    assert_eq!(sim.hbm_used(D0), Ok(100));
    assert_eq!(sim.free(D0, a, S1), Ok(()));
    assert_eq!(sim.synchronize(), Ok(()));
    assert_eq!(sim.pool_live(pool), Ok(0));
    assert_eq!(sim.pool_cached(pool), Ok(60));
    assert_eq!(sim.hbm_used(D0), Ok(60));
    assert_eq!(sim.pool_get_attribute(pool, MemPoolAttr::ReservedMemCurrent), Ok(60));
    assert_eq!(sim.pool_trim_to(pool, 20), Ok(40));
    assert_eq!(sim.pool_cached(pool), Ok(20));
    assert_eq!(sim.hbm_used(D0), Ok(20));
    assert_eq!(sim.pool_trim_to(pool, 20), Ok(0));
    assert_eq!(sim.pool_set_attribute(pool, MemPoolAttr::UsedMemCurrent, 1), invalid("read-only pool attr"));
}

#[test]
fn pools_are_created_bound_and_destroyed() {
    let mut sim = node();
    let default = sim.default_pool(D0).ok().expect("pool");
    let pool = sim.create_pool(D0).ok().expect("pool");
    assert_ne!(pool, default);
    assert_eq!(sim.set_device_mempool(D0, pool), Ok(()));
    assert_eq!(sim.device_mempool(D0), Ok(pool));
    assert_eq!(sim.set_device_mempool(D1, pool), invalid("pool device mismatch"));
    assert_eq!(sim.destroy_pool(default), invalid("default pool"));
    assert_eq!(sim.destroy_pool(pool), Ok(()));
    assert_eq!(sim.device_mempool(D0), Ok(default));
    assert_eq!(sim.destroy_pool(pool), invalid("destroyed pool"));
    let graph = sim.graph_pool(D0).ok().expect("pool");
    assert_eq!(sim.destroy_pool(graph), invalid("graph mem pool"));
}

#[test]
fn pool_access_is_granted_and_taken_back() {
    let mut sim = node();
    let pool = sim.default_pool(D0).ok().expect("pool");
    assert_eq!(sim.pool_get_access(pool, D0), Ok(MemAccessFlags::PROT_READ_WRITE));
    assert_eq!(sim.pool_get_access(pool, D1), Ok(MemAccessFlags::PROT_NONE));
    assert_eq!(sim.pool_set_access(pool, D1), Ok(()));
    assert_eq!(sim.pool_get_access(pool, D1), Ok(MemAccessFlags::PROT_READ_WRITE));
    assert_eq!(sim.pool_unset_access(pool, D1), Ok(()));
    assert_eq!(sim.is_pool_accessed_by(pool, D1), Ok(false));
    assert_eq!(sim.disable_peer(D0, D1), Ok(()));
    assert_eq!(sim.pool_set_access(pool, D1), Err(SimError::PeerDisabled { src: D0, dst: D1 }));
}

#[test]
fn exports_give_the_same_handle() {
    let mut sim = node();
    let plain = sim.create_pool(D0).ok().expect("pool");
    assert_eq!(sim.pool_export(plain), invalid("not shareable"));
    let pool = sim.create_shareable_pool(D0).ok().expect("pool");
    let first = sim.pool_export(pool);
    let clock = sim.clock_ns();
    assert!(first.is_ok());
    assert_eq!(sim.pool_export(pool), first);
    assert_eq!(sim.clock_ns(), clock);
    let imported = sim.pool_import(D0, first.ok().expect("handle")).ok().expect("pool");
    assert_eq!(sim.is_pool_imported(imported), Ok(true));
    let a = sim.alloc_from_pool(D0, pool, 40, S1).ok().expect("alloc");
    assert_eq!(sim.synchronize(), Ok(()));
    assert_eq!(sim.pool_live(imported), Ok(40));
    let ptr = sim.pool_export_ptr(a).ok().expect("pointer");
    assert_eq!(sim.pool_export_ptr(a), Ok(ptr));
    let alias = sim.pool_import_ptr(imported, ptr).ok().expect("alias");
    assert_eq!(sim.is_share_import(alias), Ok(true));
    assert_eq!(sim.hbm_used(D0), Ok(40));
    assert_eq!(sim.free_sync(a), invalid("share mapped"));
    assert_eq!(sim.free_sync(alias), Ok(()));
    assert_eq!(sim.free_sync(a), Ok(()));
    assert_eq!(sim.hbm_used(D0), Ok(0));
    assert_eq!(sim.set_pool_release_threshold(imported, 64), Ok(()));
    assert_eq!(sim.pool_get_attribute(pool, MemPoolAttr::ReleaseThreshold), Ok(64));
    assert_eq!(sim.destroy_pool(imported), Ok(()));
    assert_eq!(sim.set_pool_release_threshold(imported, 0), invalid("destroyed pool"));
    assert_eq!(sim.pool_get_attribute(pool, MemPoolAttr::ReleaseThreshold), Ok(64));
}

#[test]
fn interprocess_memory_is_shared() {
    let mut sim = node();
    let a = sim.malloc(D0, 30).ok().expect("alloc");
    let h = sim.ipc_get(a).ok().expect("handle");
    assert_eq!(sim.ipc_get(a), Ok(h));
    assert_eq!(sim.ipc_open(D1, h), invalid("ipc device mismatch"));
    let alias = sim.ipc_open(D0, h).ok().expect("alias");
    assert_eq!(sim.is_ipc_import(alias), Ok(true));
    assert_eq!(sim.hbm_used(D0), Ok(30));
    assert_eq!(sim.free_sync(a), invalid("ipc mapped"));
    assert_eq!(sim.ipc_close(alias), Ok(()));
    assert_eq!(sim.free_sync(a), Ok(()));
    let m = sim.alloc_managed(8).ok().expect("alloc");
    assert_eq!(sim.ipc_get(m), invalid("not device ipc"));
}

#[test]
fn ranges_are_mapped_span_by_span() {
    let mut sim = node();
    let va = sim.va_reserve(64).ok().expect("range");
    assert_eq!(sim.hbm_used(D0), Ok(0));
    assert_eq!(sim.va_map_range(va, D0, 0, 32), Ok(()));
    assert_eq!(sim.hbm_used(D0), Ok(32));
    assert_eq!(sim.is_range_resident(va, D0, 0, 32), Ok(true));
    assert_eq!(sim.is_range_resident(va, D0, 16, 32), Ok(false));
    assert_eq!(sim.is_resident(va, D0), Ok(false));
    assert_eq!(sim.va_map_range(va, D0, 31, 2), invalid("already mapped"));
    assert_eq!(sim.va_map_range(va, D0, 40, 32), invalid("range past VA"));
    assert_eq!(sim.va_map_range(va, D0, 32, 32), Ok(()));
    assert_eq!(sim.is_resident(va, D0), Ok(true));
    assert_eq!(sim.vmm_mapped_bytes(va, D0), Ok(64));
    assert_eq!(sim.va_free(va), invalid("VA still mapped"));
    assert_eq!(sim.va_unmap_range(va, D0, 0, 32), Ok(()));
    assert_eq!(sim.va_unmap_range(va, D0, 0, 32), invalid("no such map"));
    assert_eq!(sim.hbm_used(D0), Ok(32));
    assert_eq!(sim.va_unmap(va), Ok(()));
    assert_eq!(sim.hbm_used(D0), Ok(0));
    assert_eq!(sim.va_unmap(va), invalid("not mapped"));
    assert_eq!(sim.va_free(va), Ok(()));
    assert_eq!(sim.is_vmm(va), Ok(false));
}

#[test]
fn released_ranges_are_taken_again() {
    let mut sim = node();
    let va = sim.va_acquire(D0, 64).ok().expect("range");
    assert_eq!(sim.va_release(va), Ok(()));
    assert_eq!(sim.vmm_idle_len(), 1);
    assert_eq!(sim.hbm_used(D0), Ok(0));
    assert_eq!(sim.va_release(va), Ok(()));
    assert_eq!(sim.va_acquire(D1, 64), Ok(va));
    assert_eq!(sim.vmm_idle_len(), 0);
    assert_eq!(sim.hbm_used(D1), Ok(64));
    let other = sim.va_acquire_paged(D0, 30, 8).ok().expect("range");
    assert_ne!(other, va);
    assert_eq!(sim.vmm_mapped_bytes(other, D0), Ok(30));
    assert_eq!(sim.is_resident(other, D0), Ok(true));
    let bare = sim.va_reserve(64).ok().expect("range");
    assert_eq!(sim.begin_capture(D0, S1), Ok(()));
    assert_eq!(sim.va_release(bare), invalid("cannot capture alloc/free"));
    assert_eq!(sim.end_capture().is_ok(), true);
    assert_eq!(sim.va_release(bare), Ok(()));
}

#[test]
fn handles_keep_memory_until_the_last_map_and_reference() {
    let mut sim = node();
    let va = sim.va_reserve(16).ok().expect("range");
    let h = sim.va_create(D0, 16).ok().expect("handle");
    assert_eq!(sim.hbm_used(D0), Ok(16));
    assert_eq!(sim.va_map_handle(va, D1, 0, h), invalid("handle device mismatch"));
    assert_eq!(sim.va_map_handle(va, D0, 0, h), Ok(()));
    assert_eq!(sim.hbm_used(D0), Ok(16));
    assert_eq!(sim.handle_maps(h), Ok(1));
    assert_eq!(sim.va_release_handle(h), Ok(()));
    assert_eq!(sim.is_handle_live(h), Ok(false));
    assert_eq!(sim.hbm_used(D0), Ok(16));
    assert_eq!(sim.va_retain_handle(va, D0, 0), Ok(h));
    assert_eq!(sim.handle_refs(h), Ok(1));
    assert_eq!(sim.va_release_handle(h), Ok(()));
    assert_eq!(sim.va_release_handle(h), invalid("handle released"));
    assert_eq!(sim.va_unmap(va), Ok(()));
    assert_eq!(sim.hbm_used(D0), Ok(0));
}

#[test]
fn multicast_stores_to_a_team() {
    let mut sim = node();
    let va = sim.va_reserve(16).ok().expect("range");
    assert_eq!(sim.va_map(va, D0), Ok(()));
    assert_eq!(sim.multicast_store(D0, va, &[], S1), invalid("multicast needs NVLink"));
    assert_eq!(sim.multicast_store(D0, va, &[D0], S1), invalid("multicast src is dest"));
    assert_eq!(
        sim.multicast_store(D0, va, &[D1], S1),
        Err(SimError::NotResident { alloc: va, device: D1 }),
    );
    assert_eq!(sim.va_map(va, D1), Ok(()));
    assert!(sim.multicast_store(D0, va, &[D1], S1).is_ok());
    assert_eq!(sim.synchronize(), Ok(()));
}

#[test]
fn pointers_are_classified() {
    let mut sim = node();
    let d = sim.malloc(D1, 8).ok().expect("alloc");
    let m = sim.alloc_managed(8).ok().expect("alloc");
    let h = sim.alloc_host_mapped(8).ok().expect("alloc");
    let at = sim.pointer_get_attributes(d).ok().expect("attributes");
    assert_eq!(at.kind, MemoryType::Device);
    assert_eq!(at.device, Some(D1));
    let at = sim.pointer_get_attributes(m).ok().expect("attributes");
    assert_eq!(at.kind, MemoryType::Managed);
    assert_eq!(at.device, None);
    let at = sim.pointer_get_attributes(h).ok().expect("attributes");
    assert_eq!(at.kind, MemoryType::Host);
    assert_eq!(at.device, Some(D0));
    assert!(at.device_pointer && at.host_pointer);
    assert_eq!(sim.free_sync(d), Ok(()));
    let at = sim.pointer_get_attributes(d).ok().expect("attributes");
    assert_eq!(at.kind, MemoryType::Unregistered);
    assert_eq!(
        sim.pointer_get_attributes(AllocId(99)),
        Err(SimError::UnknownAlloc { alloc: AllocId(99) }),
    );
}

#[test]
fn graph_memory_is_counted_apart() {
    let mut sim = node();
    let g = sim.create_graph(D0, S1).ok().expect("graph");
    let a = sim.graph_add_alloc(g, 100).ok().expect("alloc");
    assert_eq!(sim.graph_mem_allocs(g), Ok(vec![a]));
    assert_eq!(sim.graph_mem_get(D0, GraphMemAttr::UsedMemCurrent), Ok(0));
    assert!(sim.launch_graph(g, S1).is_ok());
    assert_eq!(sim.synchronize(), Ok(()));
    assert_eq!(sim.graph_mem_get(D0, GraphMemAttr::UsedMemCurrent), Ok(100));
    assert_eq!(sim.graph_mem_get(D0, GraphMemAttr::UsedMemHigh), Ok(100));
    assert_eq!(sim.free_sync(a), Ok(()));
    assert_eq!(sim.graph_mem_get(D0, GraphMemAttr::UsedMemCurrent), Ok(0));
    assert_eq!(sim.graph_mem_get(D0, GraphMemAttr::ReservedMemCurrent), Ok(100));
    assert_eq!(sim.graph_mem_trim(D0), Ok(()));
    assert_eq!(sim.graph_mem_get(D0, GraphMemAttr::ReservedMemCurrent), Ok(0));
    assert_eq!(sim.graph_mem_set(D0, GraphMemAttr::UsedMemHigh, 1), invalid("graph mem attribute value"));
    assert_eq!(sim.graph_mem_set(D0, GraphMemAttr::UsedMemCurrent, 0), invalid("graph mem attribute"));
    assert_eq!(sim.graph_mem_set(D0, GraphMemAttr::UsedMemHigh, 0), Ok(()));
    assert_eq!(sim.graph_mem_get(D0, GraphMemAttr::UsedMemHigh), Ok(0));
}

#[test]
fn a_multicast_map_charges_and_refunds_nothing() {
    let mut sim = node();
    let h = sim.va_create(D0, 16).ok().expect("handle");
    let k = sim.va_create(D1, 16).ok().expect("handle");
    let mc = sim.multicast_create(16, 2).ok().expect("object");
    assert_eq!(sim.multicast_add_device(mc, D0), Ok(()));
    assert_eq!(sim.multicast_add_device(mc, D1), Ok(()));
    assert_eq!(sim.multicast_bind_mem(mc, D0, h), Ok(()));
    assert_eq!(sim.multicast_bind_mem(mc, D1, k), Ok(()));
    let other = sim.malloc(D0, 100).ok().expect("alloc");
    assert_eq!(sim.hbm_used(D0), Ok(116));
    let va = sim.va_reserve(16).ok().expect("range");
    assert_eq!(sim.va_map_multicast(va, D0, 0, mc), Ok(()));
    assert!(sim.is_multicast_va(va));
    assert_eq!(sim.hbm_used(D0), Ok(116));
    assert_eq!(sim.va_unmap(va), Ok(()));
    assert!(!sim.is_multicast_va(va));
    assert_eq!(sim.hbm_used(D0), Ok(116));
    assert_eq!(sim.free_sync(other), Ok(()));
    assert_eq!(sim.hbm_used(D0), Ok(16));
}

#[test]
fn a_pool_is_trimmed_once() {
    let mut sim = node();
    let pool = sim.default_pool(D0).ok().expect("pool");
    assert_eq!(sim.set_pool_release_threshold(pool, 1000), Ok(()));
    let a = sim.alloc_async(D0, 100, S1).ok().expect("alloc");
    assert_eq!(sim.synchronize(), Ok(()));
    assert_eq!(sim.free(D0, a, S1), Ok(()));
    assert_eq!(sim.synchronize(), Ok(()));
    assert_eq!(sim.pool_cached(pool), Ok(100));
    assert_eq!(sim.hbm_used(D0), Ok(100));
    assert_eq!(sim.pool_trim_to(pool, 200), Ok(0));
    assert_eq!(sim.pool_trim_to(pool, 30), Ok(70));
    assert_eq!(sim.hbm_used(D0), Ok(30));
    let now = sim.clock_ns();
    assert_eq!(sim.pool_trim_to(pool, 30), Ok(0));
    assert_eq!(sim.pool_cached(pool), Ok(30));
    assert_eq!(sim.hbm_used(D0), Ok(30));
    assert_eq!(sim.clock_ns(), now);
}

#[test]
fn a_copy_that_ends_after_its_free_is_not_charged() {
    let mut sim = node();
    let pool = sim.default_pool(D0).ok().expect("pool");
    assert_eq!(sim.set_pool_release_threshold(pool, 60), Ok(()));
    let a = sim.alloc_async(D0, 60, S1).ok().expect("alloc");
    assert_eq!(sim.synchronize(), Ok(()));
    assert_eq!(sim.free(D0, a, S1), Ok(()));
    assert_eq!(sim.synchronize(), Ok(()));
    assert_eq!(sim.pool_cached(pool), Ok(60));
    let host = sim.alloc_host_pinned(50).ok().expect("alloc");
    assert!(sim.memcpy_pinned_to_device(D0, host, 50, S1).is_ok());
    assert_eq!(sim.synchronize(), Ok(()));
    assert_eq!(sim.hbm_used(D0), Ok(110));
    assert!(sim.memcpy_pinned_to_device(D0, host, 50, S1).is_ok());
    assert_eq!(sim.free(D0, host, StreamId(2)), Ok(()));
    assert_eq!(sim.synchronize(), Ok(()));
    assert_eq!(sim.hbm_used(D0), Ok(60));
    assert_eq!(sim.is_resident(host, D0), Ok(true));
    assert_eq!(sim.free(D0, host, StreamId(2)), Ok(()));
    assert_eq!(sim.synchronize(), Ok(()));
    assert_eq!(sim.hbm_used(D0), Ok(10));
    assert_eq!(sim.pool_trim_to(pool, 0), Ok(60));
    assert_eq!(sim.hbm_used(D0), Ok(0));
}

#[test]
fn a_handle_gives_its_memory_back_at_last() {
    let mut sim = node();
    let va = sim.va_reserve(16).ok().expect("range");
    assert_eq!(sim.va_map(va, D0), Ok(()));
    let h = sim.va_retain_handle(va, D0, 0).ok().expect("handle");
    assert_eq!(sim.va_retain_handle(va, D0, 0), Ok(h));
    assert_eq!(sim.hbm_used(D0), Ok(16));
    assert_eq!(sim.va_unmap_range(va, D0, 0, 8), invalid("no such map"));
    assert_eq!(sim.va_unmap_range(va, D0, 0, 16), Ok(()));
    assert_eq!(sim.vmm_mapped_bytes(va, D0), Ok(0));
    assert_eq!(sim.hbm_used(D0), Ok(16));
    assert_eq!(sim.va_release_handle(h), Ok(()));
    assert_eq!(sim.hbm_used(D0), Ok(16));
    assert_eq!(sim.va_release_handle(h), Ok(()));
    assert_eq!(sim.hbm_used(D0), Ok(0));
}

#[test]
fn mapped_bytes_are_counted_by_device() {
    let mut sim = node();
    let va = sim.va_reserve(32).ok().expect("range");
    assert_eq!(sim.va_map_range(va, D0, 0, 8), Ok(()));
    assert_eq!(sim.va_map_range(va, D1, 8, 4), Ok(()));
    assert_eq!(sim.va_map_range(va, D0, 16, 16), Ok(()));
    assert_eq!(sim.vmm_mapped_bytes(va, D0), Ok(24));
    assert_eq!(sim.vmm_mapped_bytes(va, D1), Ok(4));
    assert_eq!(sim.va_unmap_range(va, D0, 0, 8), Ok(()));
    assert_eq!(sim.vmm_mapped_bytes(va, D0), Ok(16));
    assert_eq!(sim.vmm_mapped_bytes(va, D1), Ok(4));
}

#[test]
fn a_range_freed_in_stream_order_refunds_its_whole_size() {
    let mut sim = node();
    let va = sim.va_reserve(64).ok().expect("range");
    assert_eq!(sim.va_map_range(va, D0, 0, 8), Ok(()));
    assert!(sim.malloc(D0, 100).is_ok());
    assert_eq!(sim.hbm_used(D0), Ok(108));
    assert_eq!(sim.free(D0, va, S1), Ok(()));
    assert_eq!(sim.synchronize(), Ok(()));
    assert_eq!(sim.hbm_used(D0), Ok(44));
}
