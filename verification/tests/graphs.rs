//! Graph definitions, executables and capture.
use gpu_sim::error::SimError;
use gpu_sim::ids::{DeviceId, EventId, GraphId, StreamId, UserObjectId};
use gpu_sim::ops::{CaptureDepOp, GraphDebugDotFlags, GraphExecUpdateResult, GraphExecUpdateResultInfo, GraphInstantiateFlags, GraphInstantiateParams, GraphInstantiateResult, GraphNodeKind, GraphNodeParams, GraphUserObjectFlags, HostNodeParams, KernelKind, KernelNodeAttr, KernelNodeAttrValue, KernelNodeParams, MemcpyOp, Place, StreamCaptureMode};
use gpu_sim::profile::{GpuProfile, HardwareProfile, Link, LinkKind};
use gpu_sim::sim::Sim;


const D0: DeviceId = DeviceId(0);
const D1: DeviceId = DeviceId(1);
const S1: StreamId = StreamId(1);
const S2: StreamId = StreamId(2);

fn gpu(id: u16) -> GpuProfile {
    GpuProfile {
        id: DeviceId(id),
        hbm_bytes: 1000,
        hbm_bps: 1_000_000_000,
        compute_slots: 2,
        copy_engines: 1,
        cooperative_launch: true,
        flops_f32: 1_000_000_000,
        flops_f16: 1_000_000_000,
        flops_f8: 1_000_000_000,
        alloc_overhead_ns: 10,
        pool_reuse_ns: 3,
        launch_overhead_ns: 5,
        graph_launch_ns: 7,
        graph_instantiate_ns: 11,
        graph_upload_ns: 13,
        graph_update_ns: 17,
        graph_set_params_ns: 19,
        graph_clone_ns: 23,
        host_func_ns: 29,
        host_sync_spin_ns: 1,
        host_sync_yield_ns: 2,
        host_sync_blocking_ns: 3,
        l2_bytes: 256,
        l2_persist_hit_permille: 500,
        pdl_trigger_permille: 500,
        gemm_util_permille: 1000,
        grouped_moe_permille: 2000,
        shared_mem_four_byte_permille: 1000,
        shared_mem_eight_byte_permille: 500,
        same_domain_fence_permille: 0,
        mem_sync_domain_count: 4,
        max_blocks_per_cluster: 8,
        portable_cluster_size: 4,
        max_shared_mem_per_block: 48,
        max_shared_mem_per_block_optin: 96,
    }
}

fn link(a: Option<u16>, b: Option<u16>, kind: LinkKind, bps: u64, latency_ns: u64) -> Link {
    Link {
        a: a.map(DeviceId),
        b: b.map(DeviceId),
        kind,
        bps,
        pageable_bps: bps / 2,
        latency_ns,
    }
}

fn node() -> Sim {
    Sim::new(HardwareProfile {
        name: String::from("pair"),
        gpus: vec![gpu(0), gpu(1)],
        links: vec![
            link(None, Some(0), LinkKind::Pcie, 1_000_000_000, 100),
            link(None, Some(1), LinkKind::Pcie, 1_000_000_000, 100),
            link(Some(0), Some(1), LinkKind::Nvlink, 2_000_000_000, 50),
        ],
        host_pin_bytes: 500,
        va_granularity_bytes: 1,
        multicast_granularity_bytes: 1,
    })
}

fn invalid<T>(why: &'static str) -> Result<T, SimError> {
    Err(SimError::Invalid { why })
}

fn work(ns: u64) -> KernelKind {
    KernelKind::other(ns, 0)
}

fn chain(sim: &mut Sim, n: usize) -> GraphId {
    let g = sim.create_graph(D0, S1).ok().expect("graph");
    let mut i = 0;
    while i < n {
        assert_eq!(sim.graph_add_kernel(g, work(93), &[], &[]), Ok(()));
        if i > 0 {
            assert_eq!(sim.graph_add_dependencies(g, i - 1, i), Ok(()));
        }
        i += 1;
    }
    g
}

#[test]
fn a_launch_pays_the_head_once() {
    let mut sim = node();
    let g = chain(&mut sim, 2);
    assert_eq!(sim.clock_ns(), 1);
    assert_eq!(sim.launch_graph(g, S1), Ok(2));
    assert_eq!(sim.clock_ns(), 1 + 11 + 13);
    assert_eq!(sim.graph_instantiated(g), Ok(true));
    assert_eq!(sim.synchronize(), Ok(()));
    assert_eq!(sim.clock_ns(), 25 + 7 + 93 + 93);
    assert_eq!(sim.launch_graph(g, S1), Ok(2));
    assert_eq!(sim.clock_ns(), 218);
    assert_eq!(sim.synchronize(), Ok(()));
    assert_eq!(sim.clock_ns(), 218 + 193);
}

#[test]
fn dependencies_stay_free_of_cycles() {
    let mut sim = node();
    let g = chain(&mut sim, 3);
    assert_eq!(sim.graph_edges(g), Ok(vec![(0, 1), (1, 2)]));
    assert_eq!(sim.graph_add_dependencies(g, 2, 0), invalid("cyclic graph dependencies"));
    assert_eq!(
        sim.graph_add_dependencies_n(g, &[(0, 2), (2, 1)]),
        invalid("cyclic graph dependencies"),
    );
    assert_eq!(sim.graph_node_deps(g, 2), Ok(vec![1]));
    assert_eq!(sim.graph_add_dependencies_n(g, &[(0, 2), (0, 2)]), Ok(()));
    assert_eq!(sim.graph_node_deps(g, 2), Ok(vec![0, 1]));
    assert_eq!(sim.graph_add_dependencies(g, 1, 1), invalid("graph dependency"));
    assert_eq!(sim.graph_add_dependencies(g, 0, 9), invalid("graph dependency"));
    assert_eq!(sim.graph_remove_dependencies(g, 0, 2), Ok(()));
    assert_eq!(sim.graph_remove_dependencies(g, 0, 2), Ok(()));
    assert_eq!(sim.graph_node_deps(g, 2), Ok(vec![1]));
    assert_eq!(sim.graph_root_nodes(g), Ok(vec![0]));
    assert_eq!(sim.graph_node_dependents(g, 0), Ok(vec![1]));
}

#[test]
fn a_destroyed_node_takes_its_edges_along() {
    let mut sim = node();
    let g = chain(&mut sim, 3);
    assert_eq!(sim.graph_destroy_node(g, 1), Ok(()));
    assert_eq!(sim.graph_nodes(g), Ok(vec![0, 2]));
    assert_eq!(sim.graph_len(g), Ok(3));
    assert_eq!(sim.graph_root_nodes(g), Ok(vec![0, 2]));
    assert_eq!(sim.graph_edges(g), Ok(vec![]));
    assert_eq!(sim.graph_node_kind(g, 1), invalid("unknown graph node"));
    assert_eq!(sim.graph_node_kind(g, 3), invalid("graph dependency"));
    assert_eq!(sim.graph_node_kind(g, 2), Ok(GraphNodeKind::Kernel));
    assert_eq!(sim.graph_destroy_node(g, 1), invalid("unknown graph node"));
}

#[test]
fn an_executable_is_apart_from_its_definition() {
    let mut sim = node();
    let g = sim.create_graph(D0, S1).ok().expect("graph");
    let params = HostNodeParams { fn_id: 1, user_data: 2 };
    assert_eq!(sim.graph_add_host_func_params(g, params), Ok(()));
    let exec = sim.instantiate_graph(g).ok().expect("executable");
    assert_ne!(exec, g);
    assert_eq!(sim.instantiate_graph(exec), Ok(exec));
    let next = HostNodeParams { fn_id: 3, user_data: 4 };
    assert_eq!(sim.graph_host_set_params(g, 0, next), Ok(()));
    assert_eq!(sim.graph_host_get_params(g, 0), Ok(next));
    assert_eq!(sim.graph_exec_host_get_params(exec, 0), Ok(params));
    assert_eq!(sim.upload_graph(exec), Ok(()));
    assert_eq!(sim.graph_uploaded(exec), Ok(true));
    let last = HostNodeParams { fn_id: 5, user_data: 6 };
    let before = sim.clock_ns();
    assert_eq!(sim.graph_exec_host_set_params(exec, 0, last), Ok(()));
    assert_eq!(sim.clock_ns(), before + 19);
    assert_eq!(sim.graph_uploaded(exec), Ok(false));
    assert_eq!(sim.graph_host_get_params(g, 0), Ok(next));
    assert_eq!(sim.graph_exec_host_get_params(exec, 0), Ok(last));
    assert_eq!(sim.graph_unique_host(exec), Ok((0, last)));
    assert_eq!(sim.graph_try_unique_memcpy(exec), Ok(None));
    assert_eq!(sim.graph_unique_memcpy(exec), invalid("not a memcpy node"));
    assert_eq!(sim.graph_add_empty(exec), invalid("graph instantiated"));
}

#[test]
fn instantiation_reports_the_node_at_fault() {
    let mut sim = node();
    let g = sim.create_graph(D0, S1).ok().expect("graph");
    assert_eq!(sim.graph_add_empty(g), Ok(()));
    assert_eq!(sim.graph_add_host_func(g), Ok(()));
    let mut params = GraphInstantiateParams {
        flags: GraphInstantiateFlags::DEVICE_LAUNCH,
        result: GraphInstantiateResult::Success,
        err_node: None,
    };
    assert_eq!(
        sim.instantiate_graph_with_params(g, &mut params),
        invalid("device launch instantiate flag"),
    );
    assert_eq!(params.result, GraphInstantiateResult::NodeOperationNotSupported);
    assert_eq!(params.err_node, Some(1));
    params.flags = 0x100;
    assert_eq!(sim.instantiate_graph_with_params(g, &mut params), invalid("instantiate flags"));
    assert_eq!(params.result, GraphInstantiateResult::Error);
    params.flags = GraphInstantiateFlags::UPLOAD;
    let exec = sim.instantiate_graph_with_params(g, &mut params).ok().expect("executable");
    assert_eq!(params.result, GraphInstantiateResult::Success);
    assert_eq!(params.err_node, None);
    assert_eq!(sim.graph_uploaded(exec), Ok(true));
    assert_eq!(sim.graph_exec_get_flags(exec), Ok(GraphInstantiateFlags::UPLOAD));
    assert_eq!(sim.graph_exec_get_flags(GraphId(99)), invalid("unknown graph"));
}

#[test]
fn an_update_needs_the_same_shape() {
    let mut sim = node();
    let g = chain(&mut sim, 2);
    let exec = sim.instantiate_graph(g).ok().expect("executable");
    let same = chain(&mut sim, 2);
    let longer = chain(&mut sim, 3);
    let mut info = GraphExecUpdateResultInfo {
        result: GraphExecUpdateResult::Success,
        error_node: None,
        error_from_node: None,
    };
    assert_eq!(sim.update_graph_with_info(exec, longer, &mut info), invalid("graph update topology"));
    assert_eq!(info.result, GraphExecUpdateResult::TopologyChanged);
    assert_eq!(info.error_node, Some(2));
    assert_eq!(info.error_from_node, None);
    assert_eq!(sim.graph_remove_dependencies(same, 0, 1), Ok(()));
    assert_eq!(sim.update_graph_with_info(exec, same, &mut info), invalid("graph update topology"));
    assert_eq!(info.result, GraphExecUpdateResult::DependenciesChanged);
    assert_eq!(info.error_node, Some(1));
    assert_eq!(info.error_from_node, Some(0));
    assert_eq!(sim.graph_add_dependencies(same, 0, 1), Ok(()));
    let before = sim.clock_ns();
    assert_eq!(sim.update_graph_with_info(exec, same, &mut info), Ok(()));
    assert_eq!(info.result, GraphExecUpdateResult::Success);
    assert_eq!(sim.clock_ns(), before + 17);
    assert_eq!(sim.update_graph(exec, exec), invalid("graph update same id"));
}

#[test]
fn a_disabled_node_is_skipped() {
    let mut sim = node();
    let g = chain(&mut sim, 2);
    let exec = sim.instantiate_graph(g).ok().expect("executable");
    assert_eq!(sim.graph_node_set_enabled(exec, 0, false), Ok(()));
    assert_eq!(sim.graph_node_get_enabled(exec, 0), Ok(false));
    assert_eq!(sim.upload_graph(exec), Ok(()));
    let before = sim.clock_ns();
    assert!(sim.launch_graph(exec, S1).is_ok());
    assert_eq!(sim.synchronize(), Ok(()));
    assert_eq!(sim.clock_ns(), before + 7 + 93);
}

#[test]
fn node_attributes_read_back_and_are_copied() {
    let mut sim = node();
    let g = chain(&mut sim, 2);
    let value = KernelNodeAttrValue::Priority(-3);
    assert_eq!(sim.graph_kernel_node_set_attribute(g, 0, KernelNodeAttr::Priority, value), Ok(()));
    assert_eq!(sim.graph_kernel_node_get_attribute(g, 0, KernelNodeAttr::Priority), Ok(value));
    assert_eq!(sim.graph_kernel_node_get_priority(g, 1), Ok(0));
    assert_eq!(
        sim.graph_kernel_node_set_attribute(g, 0, KernelNodeAttr::Carveout, value),
        invalid("kernel node attr"),
    );
    assert_eq!(sim.graph_kernel_node_copy_attributes(g, 1, g, 0), Ok(()));
    assert_eq!(sim.graph_kernel_node_get_priority(g, 1), Ok(-3));
    assert_eq!(sim.graph_kernel_node_set_dynamic_shared(g, 0, 97), invalid("dynamic shared"));
    assert_eq!(sim.graph_kernel_node_set_dynamic_shared(g, 0, 49), invalid("non-portable shared"));
    assert_eq!(sim.graph_kernel_node_set_dynamic_shared(g, 0, 48), Ok(()));
    assert_eq!(sim.graph_kernel_node_get_dynamic_shared(g, 0), Ok(48));
    assert_eq!(sim.graph_add_empty(g), Ok(()));
    assert_eq!(sim.graph_kernel_node_get_priority(g, 2), invalid("not a kernel node"));
}

#[test]
fn a_clone_is_a_copy_of_its_own() {
    let mut sim = node();
    let inner = chain(&mut sim, 1);
    assert!(sim.instantiate_graph(inner).is_ok());
    let g = sim.create_graph(D0, S1).ok().expect("graph");
    assert_eq!(sim.graph_add_child(g, inner), Ok(()));
    let a = sim.graph_add_alloc(g, 8).ok().expect("alloc");
    let copy = sim.clone_graph(g).ok().expect("graph");
    assert_ne!(copy, g);
    let nested = sim.graph_child_get_graph(copy, 0).ok().expect("graph");
    assert_ne!(nested, inner);
    assert_eq!(sim.graph_len(nested), Ok(1));
    let (b, bytes) = sim.graph_alloc_get_params(copy, 1).ok().expect("params");
    assert_ne!(b, a);
    assert_eq!(bytes, 8);
    assert_eq!(sim.graph_mem_allocs(copy), Ok(vec![b]));
    assert_eq!(sim.graph_node_find_in_clone(g, 1, copy), Ok(1));
    assert_eq!(sim.graph_node_find_in_clone(copy, 1, g), invalid("not a clone"));
    assert_eq!(sim.destroy_graph(g), Ok(()));
    assert_eq!(sim.launch_graph(g, S1), invalid("unknown graph"));
    assert_eq!(sim.graph_len(copy), Ok(2));
}

#[test]
fn conditional_bodies_run_when_the_handle_says_so() {
    let mut sim = node();
    let g = sim.create_graph(D0, S1).ok().expect("graph");
    let off = sim.graph_conditional_create(g, 0).ok().expect("handle");
    let body = sim.graph_add_if(g, off).ok().expect("body");
    assert_eq!(sim.graph_add_kernel(body, work(500), &[], &[]), Ok(()));
    assert_eq!(sim.graph_if_nodes(g), Ok(vec![(0, off, body)]));
    let exec = sim.instantiate_graph(g).ok().expect("executable");
    assert_eq!(sim.upload_graph(exec), Ok(()));
    let before = sim.clock_ns();
    assert!(sim.launch_graph(exec, S1).is_ok());
    assert_eq!(sim.synchronize(), Ok(()));
    assert!(sim.clock_ns() < before + 500);

    let mut sim = node();
    let g = sim.create_graph(D0, S1).ok().expect("graph");
    let on = sim.graph_conditional_create(g, 1).ok().expect("handle");
    let body = sim.graph_add_if(g, on).ok().expect("body");
    assert_eq!(sim.graph_add_kernel(body, work(500), &[], &[]), Ok(()));
    assert!(sim.launch_graph(g, S1).is_ok());
    let before = sim.clock_ns();
    assert_eq!(sim.synchronize(), Ok(()));
    assert!(sim.clock_ns() >= before + 500);
    assert_eq!(sim.graph_add_switch(g, on, 65), invalid("switch branches"));
    let branches = sim.graph_add_switch(g, on, 2).ok().expect("branches");
    assert_eq!(branches.len(), 2);
    let nodes = sim.graph_switch_nodes(g).ok().expect("nodes");
    assert_eq!(nodes, vec![(1, on, branches)]);
}

#[test]
fn a_capture_records_and_runs_nothing() {
    let mut sim = node();
    assert_eq!(sim.end_capture(), invalid("end_capture without begin_capture"));
    assert_eq!(sim.begin_capture(D0, S1), Ok(()));
    assert_eq!(sim.stream_is_capturing(D0, S1), true);
    assert_eq!(sim.stream_is_capturing(D0, S2), false);
    assert_eq!(sim.begin_capture(D0, S2), invalid("nested graph capture"));
    assert_eq!(sim.malloc(D0, 8), invalid("cannot capture alloc/free"));
    assert_eq!(sim.synchronize(), invalid("cannot synchronize during capture"));
    assert!(sim.kernel(D0, work(93), &[], &[], S1).is_ok());
    assert!(sim.record_event(D0, EventId(1), S1).is_ok());
    assert!(sim.wait_event(D0, EventId(1), S2).is_ok());
    assert_eq!(sim.stream_is_capturing(D0, S2), true);
    assert!(sim.kernel(D0, work(93), &[], &[], S2).is_ok());
    assert_eq!(sim.operations().len(), 0);
    assert_eq!(sim.clock_ns(), 0);
    let info = sim.stream_capture_info(D0, S1).expect("capture");
    assert_eq!(info.dependencies, vec![1]);
    let g = sim.end_capture().ok().expect("graph");
    assert_eq!(g, info.graph);
    assert_eq!(sim.graph_len(g), Ok(4));
    assert_eq!(sim.graph_node_deps(g, 0), Ok(vec![]));
    assert_eq!(sim.graph_node_deps(g, 1), Ok(vec![0]));
    assert_eq!(sim.graph_node_deps(g, 2), Ok(vec![1]));
    assert_eq!(sim.graph_node_deps(g, 3), Ok(vec![2]));
    assert_eq!(sim.launch_graph(g, S1), Ok(4));
    assert_eq!(sim.synchronize(), Ok(()));
}

#[test]
fn a_capture_extends_a_graph_behind_given_nodes() {
    let mut sim = node();
    let g = chain(&mut sim, 1);
    assert_eq!(sim.begin_capture_to_graph(D0, S2, g, &[5]), invalid("graph dependency"));
    assert_eq!(sim.begin_capture_to_graph(D1, S2, g, &[]), invalid("capture gpu mismatch"));
    assert_eq!(sim.begin_capture_to_graph(D0, S2, g, &[0]), Ok(()));
    assert!(sim.kernel(D0, work(1), &[], &[], S2).is_ok());
    assert_eq!(
        sim.stream_update_capture_dependencies(D0, S2, &[0], CaptureDepOp::Replace),
        Ok(()),
    );
    assert!(sim.kernel(D0, work(1), &[], &[], S2).is_ok());
    assert_eq!(
        sim.stream_update_capture_dependencies(D0, S1, &[0], CaptureDepOp::Append),
        invalid("stream not capturing"),
    );
    assert_eq!(sim.end_capture(), Ok(g));
    assert_eq!(sim.graph_len(g), Ok(3));
    assert_eq!(sim.graph_node_deps(g, 1), Ok(vec![0]));
    assert_eq!(sim.graph_node_deps(g, 2), Ok(vec![0, 1]));
}

#[test]
fn capture_modes_are_exchanged() {
    let mut sim = node();
    let first = sim.stream_capture_mode();
    assert_eq!(sim.thread_exchange_stream_capture_mode(StreamCaptureMode::Global), first);
    assert_eq!(sim.stream_capture_mode(), StreamCaptureMode::Global);
    assert_eq!(sim.thread_exchange_stream_capture_mode(first), StreamCaptureMode::Global);
}

#[test]
fn the_text_form_lists_nodes_and_edges() {
    let mut sim = node();
    let g = chain(&mut sim, 2);
    assert_eq!(
        sim.graph_debug_dot(g),
        Ok(String::from(
            "digraph {\n  n0 [label=\"0 Kernel\"];\n  n1 [label=\"1 Kernel\"];\n  n0 -> n1;\n}\n",
        )),
    );
    let host = HostNodeParams { fn_id: 12, user_data: 345 };
    let h = sim.create_graph(D0, S1).ok().expect("graph");
    assert_eq!(sim.graph_add_host_func_params(h, host), Ok(()));
    assert_eq!(sim.graph_add_event_record(h, EventId(9), false), Err(SimError::UnknownEvent { event: 9 }));
    assert_eq!(
        sim.graph_debug_dot_with_flags(h, GraphDebugDotFlags::VERBOSE),
        Ok(String::from("digraph g2 {\n  n0 [label=\"0 Host fn=12 data=345\"];\n}\n")),
    );
    assert_eq!(sim.graph_debug_dot_with_flags(h, 0x2), invalid("graph debug dot flags"));
}

#[test]
fn nodes_are_added_by_parameters() {
    let mut sim = node();
    let a = sim.malloc(D0, 100).ok().expect("alloc");
    let g = sim.create_graph(D0, S1).ok().expect("graph");
    let copy = MemcpyOp::packed_1d(Place::HostPinned, Place::Device(D0), a, 100);
    let added = sim.graph_add_node(g, &[], GraphNodeParams::Memcpy(copy)).ok().expect("node");
    assert_eq!(added.node, 0);
    assert_eq!(added.alloc, None);
    let kernel = KernelNodeParams {
        kind: work(10),
        reads: vec![gpu_sim::ops::KernelBuf::whole(a)],
        writes: vec![],
        cooperative: false,
    };
    let added = sim.graph_add_node(g, &[0], GraphNodeParams::Kernel(kernel)).ok().expect("node");
    assert_eq!(added.node, 1);
    assert_eq!(sim.graph_node_deps(g, 1), Ok(vec![0]));
    let params = sim.graph_kernel_get_params(g, 1).ok().expect("params");
    assert_eq!(params.reads[0].bytes, 100);
    let added = sim.graph_add_node(g, &[1], GraphNodeParams::Alloc { bytes: 8 }).ok().expect("node");
    assert_eq!(added.node, 2);
    assert!(added.alloc.is_some());
    assert!(sim.graph_add_node(g, &[7], GraphNodeParams::Empty).is_err());
    let pageable = MemcpyOp::packed_1d(Place::Host, Place::Device(D0), a, 100);
    assert_eq!(sim.graph_add_memcpy(g, pageable), invalid("cannot add pageable memcpy"));
    assert_eq!(
        sim.graph_node_set_params(g, 0, GraphNodeParams::Empty),
        invalid("empty node has no params"),
    );
}

#[test]
fn user_objects_are_destroyed_with_their_last_reference() {
    let mut sim = node();
    assert_eq!(sim.user_object_create(77, 1, 0), invalid("user object flags"));
    assert_eq!(sim.user_object_create(77, 0, 1), invalid("user object initial refs"));
    let u = sim.user_object_create(77, 2, 1).ok().expect("object");
    assert_eq!(u, UserObjectId(1));
    let g = sim.create_graph(D0, S1).ok().expect("graph");
    assert_eq!(sim.graph_retain_user_object(g, u, 0, GraphUserObjectFlags::MOVE), Ok(()));
    assert_eq!(sim.user_object_refs(u), Ok(2));
    assert_eq!(sim.user_object_graph_refs(g, u), Ok(1));
    assert_eq!(sim.user_object_release(u, 2), invalid("user object refs"));
    assert_eq!(sim.user_object_release(u, 1), Ok(()));
    assert_eq!(sim.user_object_destructors().len(), 0);
    assert_eq!(sim.destroy_graph(g), Ok(()));
    assert_eq!(sim.user_object_destructors().to_vec(), vec![(u, 77)]);
    assert_eq!(sim.user_object_refs(u), invalid("unknown user object"));
}

#[test]
fn a_destroyed_node_no_longer_counts() {
    let mut sim = node();
    let g = sim.create_graph(D0, S1).ok().expect("graph");
    let a = sim.graph_add_alloc(g, 8).ok().expect("alloc");
    assert_eq!(sim.graph_add_free(g, a), Ok(()));
    assert_eq!(sim.graph_destroy_node(g, 1), Ok(()));
    assert_eq!(sim.graph_nodes(g), Ok(vec![0]));
    assert_eq!(sim.instantiate_graph_auto_free(g), Ok(GraphId(2)));
    let kept = sim.create_graph(D0, S1).ok().expect("graph");
    let b = sim.graph_add_alloc(kept, 8).ok().expect("alloc");
    assert_eq!(sim.graph_add_free(kept, b), Ok(()));
    assert_eq!(sim.instantiate_graph_auto_free(kept), invalid("auto free with mem free nodes"));
    let host = sim.create_graph(D0, S1).ok().expect("graph");
    assert_eq!(sim.graph_add_host_func(host), Ok(()));
    assert_eq!(sim.graph_add_kernel(host, work(1), &[], &[]), Ok(()));
    assert_eq!(sim.graph_destroy_node(host, 0), Ok(()));
    let mut params = GraphInstantiateParams {
        flags: GraphInstantiateFlags::DEVICE_LAUNCH,
        ..GraphInstantiateParams::default()
    };
    assert!(sim.instantiate_graph_with_params(host, &mut params).is_ok());
    assert_eq!(params.result, GraphInstantiateResult::Success);
    let parent = sim.create_graph(D0, S1).ok().expect("graph");
    let child = chain(&mut sim, 1);
    let child = sim.instantiate_graph(child).ok().expect("executable");
    assert_eq!(sim.graph_add_child(parent, child), Ok(()));
    assert_eq!(sim.graph_destroy_node(parent, 0), Ok(()));
    assert_eq!(sim.graph_child_nodes(parent), Ok(vec![]));
    let copy = sim.clone_graph(parent).ok().expect("clone");
    let next = sim.create_graph(D0, S1).ok().expect("graph");
    assert_eq!(next.0, copy.0 + 1);
}

#[test]
fn a_failed_upload_is_reported() {
    let mut sim = Sim::new(HardwareProfile {
        name: String::from("single"),
        gpus: vec![gpu(1)],
        links: vec![link(None, Some(1), LinkKind::Pcie, 1_000_000_000, 100)],
        host_pin_bytes: 500,
        va_granularity_bytes: 1,
        multicast_granularity_bytes: 1,
    });
    let g = sim.create_graph(D1, S1).ok().expect("graph");
    let mut params = GraphInstantiateParams {
        flags: GraphInstantiateFlags::UPLOAD,
        ..GraphInstantiateParams::default()
    };
    assert_eq!(
        sim.instantiate_graph_with_params(g, &mut params),
        invalid("unknown device"),
    );
    assert_eq!(params.result, GraphInstantiateResult::Error);
    assert_eq!(params.err_node, None);
    assert_eq!(params.flags, GraphInstantiateFlags::UPLOAD);
}

#[test]
fn results_start_without_a_fault() {
    let params = GraphInstantiateParams::default();
    assert_eq!(params.flags, 0);
    assert_eq!(params.result, GraphInstantiateResult::Success);
    assert_eq!(params.err_node, None);
    let info = GraphExecUpdateResultInfo::default();
    assert_eq!(info.result, GraphExecUpdateResult::Success);
    assert_eq!(info.error_node, None);
    assert_eq!(info.error_from_node, None);
}

#[test]
fn edges_are_added_together_and_removed_again() {
    let mut sim = node();
    let g = sim.create_graph(D0, S1).ok().expect("graph");
    let mut i = 0;
    while i < 4 {
        assert_eq!(sim.graph_add_empty(g), Ok(()));
        i += 1;
    }
    assert_eq!(sim.graph_add_dependencies_n(g, &[(0, 1), (2, 3)]), Ok(()));
    let before = sim.graph_edges(g).ok().expect("edges");
    assert_eq!(before, vec![(0, 1), (2, 3)]);
    assert_eq!(sim.graph_add_dependencies_n(g, &[(1, 2), (3, 0)]), invalid("cyclic graph dependencies"));
    assert_eq!(sim.graph_edges(g), Ok(before.clone()));
    assert_eq!(sim.graph_add_dependencies_n(g, &[(0, 3), (1, 3)]), Ok(()));
    assert_eq!(sim.graph_edges(g), Ok(vec![(0, 1), (0, 3), (1, 3), (2, 3)]));
    assert_eq!(sim.graph_node_dependents(g, 0), Ok(vec![1, 3]));
    assert_eq!(sim.graph_node_dependents(g, 3), Ok(vec![]));
    assert_eq!(sim.graph_node_deps(g, 3), Ok(vec![0, 1, 2]));
    assert_eq!(sim.graph_remove_dependencies_n(g, &[(0, 3), (1, 3)]), Ok(()));
    assert_eq!(sim.graph_edges(g), Ok(before.clone()));
    assert_eq!(sim.graph_remove_dependencies_n(g, &[(0, 2)]), Ok(()));
    assert_eq!(sim.graph_edges(g), Ok(before));
}

#[test]
fn only_a_direct_clone_is_a_clone() {
    let mut sim = node();
    let g = chain(&mut sim, 2);
    let copy = sim.clone_graph(g).ok().expect("clone");
    let again = sim.clone_graph(copy).ok().expect("clone");
    assert_eq!(sim.graph_node_find_in_clone(g, 1, copy), Ok(1));
    assert_eq!(sim.graph_node_find_in_clone(copy, 0, again), Ok(0));
    assert_eq!(sim.graph_node_find_in_clone(g, 0, again), invalid("not a clone"));
    assert_eq!(sim.graph_node_find_in_clone(g, 0, g), invalid("not a clone"));
    assert_eq!(sim.graph_node_find_in_clone(g, 2, copy), invalid("unknown graph node"));
    assert_eq!(sim.graph_edges(again), sim.graph_edges(g));
}

#[test]
fn a_capture_on_one_stream_is_a_line() {
    let mut sim = node();
    assert!(sim.stream_capture_info(D0, S1).is_none());
    assert_eq!(sim.begin_capture(D0, S1), Ok(()));
    let first = sim.stream_capture_info(D0, S1).expect("capture");
    assert_eq!(first.dependencies, vec![]);
    assert_eq!(first.pending_deps, vec![]);
    let mut i = 0;
    while i < 3 {
        assert!(sim.kernel(D0, work(1), &[], &[], S1).is_ok());
        let info = sim.stream_capture_info(D0, S1).expect("capture");
        assert_eq!(info.dependencies, vec![i]);
        assert_eq!(info.id, first.id);
        i += 1;
    }
    let g = sim.end_capture().ok().expect("graph");
    assert_eq!(sim.graph_edges(g), Ok(vec![(0, 1), (1, 2)]));
    assert_eq!(sim.begin_capture(D0, S1), Ok(()));
    let second = sim.stream_capture_info(D0, S1).expect("capture");
    assert_ne!(second.id, first.id);
}

#[test]
fn one_attribute_is_set_alone() {
    let mut sim = node();
    let g = chain(&mut sim, 2);
    let exec = sim.instantiate_graph(g).ok().expect("executable");
    let was = sim.graph_kernel_node_get_attribute(g, 0, KernelNodeAttr::DynamicShared);
    let now = sim.clock_ns();
    let value = KernelNodeAttrValue::Priority(3);
    assert_eq!(sim.graph_kernel_node_set_attribute(g, 0, KernelNodeAttr::Priority, value), Ok(()));
    assert_eq!(sim.clock_ns(), now + 1);
    assert_eq!(sim.graph_kernel_node_get_attribute(g, 0, KernelNodeAttr::Priority), Ok(value));
    assert_eq!(sim.graph_kernel_node_get_attribute(g, 0, KernelNodeAttr::DynamicShared), was);
    let plain = Ok(KernelNodeAttrValue::Priority(0));
    assert_eq!(sim.graph_kernel_node_get_attribute(g, 1, KernelNodeAttr::Priority), plain);
    assert_eq!(sim.graph_exec_kernel_node_get_attribute(exec, 0, KernelNodeAttr::Priority), plain);
    let other = KernelNodeAttrValue::Priority(5);
    assert_eq!(sim.graph_exec_kernel_node_set_attribute(exec, 0, KernelNodeAttr::Priority, other), Ok(()));
    assert_eq!(sim.clock_ns(), now + 2);
    assert_eq!(sim.graph_exec_kernel_node_get_attribute(exec, 0, KernelNodeAttr::Priority), Ok(other));
    assert_eq!(sim.graph_exec_kernel_node_get_attribute(exec, 1, KernelNodeAttr::Priority), plain);
    assert_eq!(sim.graph_kernel_node_get_attribute(g, 0, KernelNodeAttr::Priority), Ok(value));
}

#[test]
fn a_unique_kernel_is_the_only_one() {
    let mut sim = node();
    let g = sim.create_graph(D0, S1).ok().expect("graph");
    assert_eq!(sim.graph_add_empty(g), Ok(()));
    assert!(matches!(sim.graph_unique_kernel(g), Err(SimError::Invalid { why: "not a kernel node" })));
    assert_eq!(sim.graph_add_kernel(g, work(1), &[], &[]), Ok(()));
    assert!(matches!(sim.graph_unique_kernel(g), Ok((1, _))));
    assert_eq!(sim.graph_add_kernel(g, work(1), &[], &[]), Ok(()));
    assert!(matches!(sim.graph_unique_kernel(g), Err(SimError::Invalid { why: "not unique kernel node" })));
    assert_eq!(sim.graph_destroy_node(g, 1), Ok(()));
    assert!(matches!(sim.graph_unique_kernel(g), Ok((2, _))));
}

#[test]
fn references_of_all_graphs_are_counted() {
    let mut sim = node();
    let u = sim.user_object_create(5, 4, 1).ok().expect("object");
    let g = sim.create_graph(D0, S1).ok().expect("graph");
    let h = sim.create_graph(D0, S1).ok().expect("graph");
    assert_eq!(sim.graph_retain_user_object(g, u, 2, 0), Ok(()));
    assert_eq!(sim.graph_retain_user_object(h, u, 3, 0), Ok(()));
    assert_eq!(sim.user_object_graph_refs(g, u), Ok(2));
    assert_eq!(sim.user_object_graph_refs(h, u), Ok(3));
    assert_eq!(sim.user_object_refs(u), Ok(4 + 2 + 3));
}
