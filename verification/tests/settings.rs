//! Streams, peers, limits and device queries.
use gpu_sim::error::SimError;
use gpu_sim::ids::{DeviceId, StreamId};
use gpu_sim::ops::{DeviceAttr, DeviceLimit, DeviceP2pAttr, FuncAttr, StreamAttr, StreamAttrValue};
use gpu_sim::profile::{GpuProfile, HardwareProfile, Link, LinkKind};
use gpu_sim::sim::Sim;


const D0: DeviceId = DeviceId(0);
const D1: DeviceId = DeviceId(1);
const S1: StreamId = StreamId(1);
const S2: StreamId = StreamId(2);

fn gpu(id: u16) -> GpuProfile {
    GpuProfile {
        id: DeviceId(id),
        hbm_bytes: 1000,
        hbm_bps: 1_000_000_000,
        compute_slots: 2,
        copy_engines: 1,
        cooperative_launch: true,
        flops_f32: 1_000_000_000,
        flops_f16: 1_000_000_000,
        flops_f8: 1_000_000_000,
        alloc_overhead_ns: 10,
        pool_reuse_ns: 3,
        launch_overhead_ns: 5,
        graph_launch_ns: 7,
        graph_instantiate_ns: 11,
        graph_upload_ns: 13,
        graph_update_ns: 17,
        graph_set_params_ns: 19,
        graph_clone_ns: 23,
        host_func_ns: 29,
        host_sync_spin_ns: 1,
        host_sync_yield_ns: 2,
        host_sync_blocking_ns: 3,
        l2_bytes: 256,
        l2_persist_hit_permille: 500,
        pdl_trigger_permille: 500,
        gemm_util_permille: 1000,
        grouped_moe_permille: 2000,
        shared_mem_four_byte_permille: 1000,
        shared_mem_eight_byte_permille: 500,
        same_domain_fence_permille: 0,
        mem_sync_domain_count: 4,
        max_blocks_per_cluster: 8,
        portable_cluster_size: 4,
        max_shared_mem_per_block: 48,
        max_shared_mem_per_block_optin: 96,
    }
}

fn link(a: Option<u16>, b: Option<u16>, kind: LinkKind, bps: u64, latency_ns: u64) -> Link {
    Link {
        a: a.map(DeviceId),
        b: b.map(DeviceId),
        kind,
        bps,
        pageable_bps: bps / 2,
        latency_ns,
    }
}

fn node() -> Sim {
    Sim::new(HardwareProfile {
        name: String::from("pair"),
        gpus: vec![gpu(0), gpu(1)],
        links: vec![
            link(None, Some(0), LinkKind::Pcie, 1_000_000_000, 100),
            link(None, Some(1), LinkKind::Pcie, 1_000_000_000, 100),
            link(Some(0), Some(1), LinkKind::Nvlink, 2_000_000_000, 50),
        ],
        host_pin_bytes: 500,
        va_granularity_bytes: 1,
        multicast_granularity_bytes: 1,
    })
}

fn invalid<T>(why: &'static str) -> Result<T, SimError> {
    Err(SimError::Invalid { why })
}

#[test]
fn stream_attributes_read_back_and_are_copied() {
    let mut sim = node();
    let value = StreamAttrValue::Priority(4);
    assert_eq!(sim.stream_set_attribute(D0, S1, StreamAttr::Priority, value), Ok(()));
    assert_eq!(sim.stream_get_attribute(D0, S1, StreamAttr::Priority), Ok(value));
    assert_eq!(sim.stream_get_attribute(D0, S2, StreamAttr::Priority), Ok(StreamAttrValue::Priority(0)));
    assert_eq!(
        sim.stream_set_attribute(D0, S1, StreamAttr::MemSyncDomain, value),
        invalid("stream attr"),
    );
    assert_eq!(sim.set_stream_sm_permille(D0, S1, 250), Ok(()));
    assert_eq!(sim.stream_copy_attributes(D0, S2, D0, S1), Ok(()));
    assert_eq!(sim.stream_priority(D0, S2), 4);
    assert_eq!(sim.stream_sm_permille(D0, S2), 250);
    assert_eq!(
        sim.stream_copy_attributes(D1, S2, D0, S1),
        invalid("stream attribute device mismatch"),
    );
}

#[test]
fn stream_ids_are_unique() {
    let sim = node();
    assert_eq!(sim.stream_get_id(D0, S1), Ok(2));
    assert_eq!(sim.stream_get_id(D1, S1), Ok(65536 + 2));
    assert_eq!(sim.stream_get_id(DeviceId(9), S1), invalid("unknown device"));
}

#[test]
fn blocking_streams_are_flagged() {
    let mut sim = node();
    assert_eq!(sim.stream_create_with_flags(D0, S1, 0), Ok(()));
    assert_eq!(sim.stream_get_flags(D0, S1), Ok(0));
    assert_eq!(sim.stream_create_with_priority(D0, S2, 1, 3), Ok(()));
    assert_eq!(sim.stream_get_flags(D0, S2), Ok(1));
    assert_eq!(sim.stream_get_priority(D0, S2), Ok(3));
    assert_eq!(sim.stream_create_with_flags(D0, S1, 2), invalid("stream create flags"));
    assert_eq!(
        sim.set_stream_blocking(D0, StreamId(0), true),
        invalid("null stream uses set_legacy_null_stream"),
    );
}

#[test]
fn peer_access_is_directed() {
    let mut sim = node();
    assert_eq!(sim.peer_access(D0, D1), true);
    assert_eq!(sim.disable_peer(D0, D1), Ok(()));
    assert_eq!(sim.peer_access(D0, D1), false);
    assert_eq!(sim.peer_access(D1, D0), true);
    assert_eq!(sim.peer_access(D0, D0), true);
    assert_eq!(sim.enable_peer_with_flags(D0, D1, 1), invalid("peer access flags"));
    assert_eq!(sim.enable_peer(D0, D1), Ok(()));
    assert_eq!(sim.peer_access(D0, D1), true);
    assert_eq!(sim.device_can_access_peer(D0, D1), Ok(true));
    assert_eq!(sim.device_can_access_peer(D0, D0), Ok(false));
    assert_eq!(sim.device_get_p2p_attribute(D0, D1, DeviceP2pAttr::PerformanceRank), Ok(0));
}

#[test]
fn limits_read_back() {
    let mut sim = node();
    assert_eq!(sim.get_limit(D0, DeviceLimit::StackSize), Ok(1024));
    assert_eq!(sim.set_limit(D0, DeviceLimit::StackSize, 0), invalid("device limit"));
    assert_eq!(sim.set_limit(D0, DeviceLimit::StackSize, 4096), Ok(()));
    assert_eq!(sim.get_limit(D0, DeviceLimit::StackSize), Ok(4096));
    assert_eq!(sim.get_limit(D1, DeviceLimit::StackSize), Ok(1024));
    assert_eq!(
        sim.set_limit(D0, DeviceLimit::MaxL2FetchGranularity, 48),
        invalid("l2 fetch granularity"),
    );
    assert_eq!(sim.set_limit(D0, DeviceLimit::DevRuntimeSyncDepth, 1), invalid("device limit"));
    assert_eq!(sim.set_limit(D0, DeviceLimit::PersistingL2CacheSize, 100), Ok(()));
    assert_eq!(sim.get_limit(D0, DeviceLimit::PersistingL2CacheSize), Ok(100));
    assert_eq!(sim.enable_persisting_l2(), Ok(()));
    assert_eq!(sim.persisting_l2_cache_size(D1), Ok(256));
}

#[test]
fn function_attributes_read_back() {
    let mut sim = node();
    assert_eq!(sim.func_set_attribute(D0, FuncAttr::MaxDynamicSharedMemorySize, 64), Ok(()));
    assert_eq!(sim.func_get_attribute(D0, FuncAttr::MaxDynamicSharedMemorySize), Ok(64));
    assert_eq!(
        sim.func_set_attribute(D0, FuncAttr::MaxDynamicSharedMemorySize, 97),
        invalid("max dynamic shared"),
    );
    assert_eq!(
        sim.func_set_attribute(D0, FuncAttr::MaxDynamicSharedMemorySize, -1),
        invalid("func attr"),
    );
    assert_eq!(sim.func_set_attribute(D0, FuncAttr::NonPortableClusterSizeAllowed, 2), invalid("func attr"));
    assert_eq!(sim.func_set_attribute(D0, FuncAttr::NonPortableClusterSizeAllowed, 1), Ok(()));
    let all = sim.func_get_attributes(D0).ok().expect("attributes");
    assert_eq!(all.max_dynamic_shared_size_bytes, 64);
    assert_eq!(all.non_portable_cluster_size_allowed, true);
}

#[test]
fn devices_describe_themselves() {
    let sim = node();
    assert_eq!(sim.device_count(), 2);
    assert_eq!(sim.device_get_attribute(D0, DeviceAttr::TotalGlobalMem), Ok(1000));
    assert_eq!(sim.device_get_attribute(D0, DeviceAttr::ConcurrentKernels), Ok(1));
    assert_eq!(sim.device_get_attribute(D0, DeviceAttr::MaxSharedMemoryPerBlockOptin), Ok(96));
    let p = sim.device_get_properties(D1).ok().expect("properties");
    assert_eq!(p.name, "pair");
    assert_eq!(p.total_global_mem, 1000);
    assert_eq!(p.max_blocks_per_cluster, 8);
    assert_eq!(sim.device_get_properties(DeviceId(5)).is_err(), true);
    assert_eq!(sim.profile().gpus.len(), 2);
}

#[test]
fn copied_attributes_leave_other_streams_alone() {
    let mut sim = node();
    let s3 = StreamId(3);
    assert_eq!(sim.set_stream_sm_permille(D0, S1, 0), invalid("sm permille must be 1..=1000"));
    assert_eq!(sim.set_stream_sm_permille(D0, S1, 1001), invalid("sm permille must be 1..=1000"));
    assert_eq!(sim.set_stream_sm_permille(D0, S1, 300), Ok(()));
    assert_eq!(sim.set_stream_sm_permille(D0, s3, 700), Ok(()));
    assert_eq!(sim.set_stream_priority(D0, s3, 9), Ok(()));
    assert_eq!(sim.stream_copy_attributes(D0, S2, D0, S1), Ok(()));
    assert_eq!(sim.stream_sm_permille(D0, S1), 300);
    assert_eq!(sim.stream_sm_permille(D0, S2), 300);
    assert_eq!(sim.stream_sm_permille(D0, s3), 700);
    assert_eq!(sim.stream_priority(D0, S2), 0);
    assert_eq!(sim.stream_priority(D0, s3), 9);
}
