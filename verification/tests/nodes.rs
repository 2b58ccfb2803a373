//! Attributes and reports of graph nodes.
use gpu_sim::error::SimError;
use gpu_sim::ids::{DeviceId, EventId, GraphId, StreamId};
use gpu_sim::ops::{AccessPolicyWindow, AccessProperty, ClusterDim, ClusterSchedulingPolicy, GraphInstantiateParams, GraphInstantiateResult, KernelBuf, KernelKind, KernelNodeAttr, KernelNodeAttrValue, LaunchCompletionEvent, MemSyncDomain, MemSyncDomainMap, PortableClusterMode, PortableSharedMode, ProgrammaticEvent, ProgrammaticLaunch, SharedMemCarveout, SharedMemoryMode};
use gpu_sim::profile::{GpuProfile, HardwareProfile, Link, LinkKind};
use gpu_sim::sim::Sim;


const D0: DeviceId = DeviceId(0);
const S1: StreamId = StreamId(1);

fn gpu(id: u16) -> GpuProfile {
    GpuProfile {
        id: DeviceId(id),
        hbm_bytes: 1000,
        hbm_bps: 1_000_000_000,
        compute_slots: 2,
        copy_engines: 1,
        cooperative_launch: true,
        flops_f32: 1_000_000_000,
        flops_f16: 1_000_000_000,
        flops_f8: 1_000_000_000,
        alloc_overhead_ns: 10,
        pool_reuse_ns: 3,
        launch_overhead_ns: 5,
        graph_launch_ns: 7,
        graph_instantiate_ns: 11,
        graph_upload_ns: 13,
        graph_update_ns: 17,
        graph_set_params_ns: 19,
        graph_clone_ns: 23,
        host_func_ns: 29,
        host_sync_spin_ns: 1,
        host_sync_yield_ns: 2,
        host_sync_blocking_ns: 3,
        l2_bytes: 256,
        l2_persist_hit_permille: 500,
        pdl_trigger_permille: 500,
        gemm_util_permille: 1000,
        grouped_moe_permille: 2000,
        shared_mem_four_byte_permille: 1000,
        shared_mem_eight_byte_permille: 500,
        same_domain_fence_permille: 0,
        mem_sync_domain_count: 4,
        max_blocks_per_cluster: 8,
        portable_cluster_size: 4,
        max_shared_mem_per_block: 48,
        max_shared_mem_per_block_optin: 96,
    }
}

fn link(a: Option<u16>, b: Option<u16>, kind: LinkKind, bps: u64, latency_ns: u64) -> Link {
    Link {
        a: a.map(DeviceId),
        b: b.map(DeviceId),
        kind,
        bps,
        pageable_bps: bps / 2,
        latency_ns,
    }
}

fn node() -> Sim {
    Sim::new(HardwareProfile {
        name: String::from("pair"),
        gpus: vec![gpu(0), gpu(1)],
        links: vec![
            link(None, Some(0), LinkKind::Pcie, 1_000_000_000, 100),
            link(None, Some(1), LinkKind::Pcie, 1_000_000_000, 100),
            link(Some(0), Some(1), LinkKind::Nvlink, 2_000_000_000, 50),
        ],
        host_pin_bytes: 500,
        va_granularity_bytes: 1,
        multicast_granularity_bytes: 1,
    })
}

fn invalid<T>(why: &'static str) -> Result<T, SimError> {
    Err(SimError::Invalid { why })
}

fn work(ns: u64) -> KernelKind {
    KernelKind::other(ns, 0)
}

fn values(sim: &mut Sim) -> Vec<(KernelNodeAttr, KernelNodeAttrValue)> {
    let a = sim.malloc(D0, 256).ok().expect("alloc");
    let window = AccessPolicyWindow {
        buf: KernelBuf::span(a, 0, 128),
        hit_ratio_permille: 600,
        hit: AccessProperty::Persisting,
        miss: AccessProperty::Streaming,
    };
    let two = ClusterDim { x: 2, y: 1, z: 1 };
    let four = ClusterDim { x: 4, y: 1, z: 1 };
    vec![
        (KernelNodeAttr::AccessPolicy, KernelNodeAttrValue::AccessPolicy(Some(window))),
        (KernelNodeAttr::Carveout, KernelNodeAttrValue::Carveout(SharedMemCarveout::MaxShared)),
        (KernelNodeAttr::Cluster, KernelNodeAttrValue::Cluster(Some(two))),
        (
            KernelNodeAttr::ClusterPolicy,
            KernelNodeAttrValue::ClusterPolicy(ClusterSchedulingPolicy::Spread),
        ),
        (KernelNodeAttr::DeviceUpdatable, KernelNodeAttrValue::DeviceUpdatable(true)),
        (KernelNodeAttr::DynamicShared, KernelNodeAttrValue::DynamicShared(24)),
        (
            KernelNodeAttr::LaunchCompletion,
            KernelNodeAttrValue::LaunchCompletion(
                Some(LaunchCompletionEvent { event: EventId(4), external: false }),
            ),
        ),
        (KernelNodeAttr::MemSyncDomain, KernelNodeAttrValue::MemSyncDomain(MemSyncDomain::Remote)),
        (
            KernelNodeAttr::MemSyncDomainMap,
            KernelNodeAttrValue::MemSyncDomainMap(MemSyncDomainMap { default: 1, remote: 3 }),
        ),
        (KernelNodeAttr::NvlinkUtilCentric, KernelNodeAttrValue::NvlinkUtilCentric(true)),
        (
            KernelNodeAttr::Pdl,
            KernelNodeAttrValue::Pdl(ProgrammaticLaunch { wait: true, trigger: false }),
        ),
        (
            KernelNodeAttr::PortableCluster,
            KernelNodeAttrValue::PortableCluster(PortableClusterMode::AllowNonPortable),
        ),
        (
            KernelNodeAttr::PortableShared,
            KernelNodeAttrValue::PortableShared(PortableSharedMode::AllowNonPortable),
        ),
        (KernelNodeAttr::PreferredCluster, KernelNodeAttrValue::PreferredCluster(Some(four))),
        (KernelNodeAttr::Priority, KernelNodeAttrValue::Priority(-7)),
        (
            KernelNodeAttr::ProgrammaticEvent,
            KernelNodeAttrValue::ProgrammaticEvent(
                Some(ProgrammaticEvent { event: EventId(5), external: false }),
            ),
        ),
        (
            KernelNodeAttr::SharedMem,
            KernelNodeAttrValue::SharedMem(SharedMemoryMode::EightByte),
        ),
    ]
}

fn one_kernel(sim: &mut Sim) -> GraphId {
    let g = sim.create_graph(D0, S1).ok().expect("graph");
    assert_eq!(sim.graph_add_kernel(g, work(93), &[], &[]), Ok(()));
    assert_eq!(sim.graph_add_kernel(g, work(93), &[], &[]), Ok(()));
    g
}

#[test]
fn every_attribute_of_a_definition_reads_back() {
    let mut sim = node();
    let g = one_kernel(&mut sim);
    for (attr, value) in values(&mut sim) {
        assert_ne!(sim.graph_kernel_node_get_attribute(g, 0, attr), Ok(value));
        assert_eq!(sim.graph_kernel_node_set_attribute(g, 0, attr, value), Ok(()));
        assert_eq!(sim.graph_kernel_node_get_attribute(g, 0, attr), Ok(value));
        assert_ne!(sim.graph_kernel_node_get_attribute(g, 1, attr), Ok(value));
    }
}

#[test]
fn copied_attributes_are_all_but_the_dynamic_shared_memory() {
    let mut sim = node();
    let g = one_kernel(&mut sim);
    let other = one_kernel(&mut sim);
    let all = values(&mut sim);
    for (attr, value) in all.iter() {
        assert_eq!(sim.graph_kernel_node_set_attribute(g, 0, *attr, *value), Ok(()));
    }
    assert_eq!(sim.graph_kernel_node_copy_attributes(other, 1, g, 0), Ok(()));
    for (attr, value) in all.iter() {
        let copied = sim.graph_kernel_node_get_attribute(other, 1, *attr);
        if *attr == KernelNodeAttr::DynamicShared {
            assert_eq!(copied, Ok(KernelNodeAttrValue::DynamicShared(0)));
        } else {
            assert_eq!(copied, Ok(*value));
        }
        assert_ne!(sim.graph_kernel_node_get_attribute(other, 0, *attr), Ok(*value));
    }
}

#[test]
fn every_attribute_of_an_executable_reads_back() {
    let mut sim = node();
    let g = one_kernel(&mut sim);
    let exec = sim.instantiate_graph(g).ok().expect("executable");
    for (attr, value) in values(&mut sim) {
        assert_eq!(sim.graph_exec_kernel_node_set_attribute(exec, 1, attr, value), Ok(()));
        assert_eq!(sim.graph_exec_kernel_node_get_attribute(exec, 1, attr), Ok(value));
        assert_ne!(sim.graph_exec_kernel_node_get_attribute(exec, 0, attr), Ok(value));
        assert_ne!(sim.graph_kernel_node_get_attribute(g, 1, attr), Ok(value));
    }
}

#[test]
fn an_executable_is_its_own_instance_and_is_uploaded_once() {
    let mut sim = node();
    let g = one_kernel(&mut sim);
    let exec = sim.instantiate_graph(g).ok().expect("executable");
    let before = sim.clock_ns();
    assert_eq!(sim.instantiate_graph(exec), Ok(exec));
    assert_eq!(sim.clock_ns(), before);
    assert_eq!(sim.upload_graph(exec), Ok(()));
    assert_eq!(sim.clock_ns(), before + 13);
    assert_eq!(sim.upload_graph(exec), Ok(()));
    assert_eq!(sim.clock_ns(), before + 13);
}

#[test]
fn a_refused_body_is_reported_as_an_error() {
    let mut sim = node();
    let g = sim.create_graph(D0, S1).ok().expect("graph");
    let on = sim.graph_conditional_create(g, 1).ok().expect("handle");
    let body = sim.graph_add_if(g, on).ok().expect("body");
    assert!(sim.graph_add_alloc(body, 8).is_ok());
    assert!(sim.instantiate_graph(g).is_ok());
    let mut params = GraphInstantiateParams {
        flags: 0,
        result: GraphInstantiateResult::Success,
        err_node: Some(9),
    };
    assert_eq!(
        sim.instantiate_graph_with_params(g, &mut params),
        Err(SimError::Invalid { why: "graph mem exec" }),
    );
    assert_eq!(params.result, GraphInstantiateResult::Error);
    assert_eq!(params.err_node, None);
}
