//! Histories of the operations in `sim::device`.
use vstd::prelude::*;
use crate::history::{follows, gpu_follows, rest_follows};
use crate::history::access::tick_follows;
use crate::ids::DeviceId;
use crate::num::max_u32;
use crate::ops::{DeviceLimit, FuncAttr};
use crate::persist::lines_trimmed;
use crate::sim::SimState;
use crate::state::GpuRtView;

verus! {

/// [`Sim::set_persisting_l2_cache_size`] continues the history.
pub proof fn set_persisting_l2_cache_size_follows(
    z: SimState,
    s0: SimState,
    device: DeviceId,
    bytes: u64,
)
    requires
        follows(z, s0),
    ensures
        follows(z, s0.set_persisting_l2_cache_size(device, bytes).0),
{
    let s = s0;
    match s.fail_if_capturing("cannot capture persisting L2") {
        Err(e) => {},
        Ok(_v) => match s.profile.gpu(device) {
            Err(e) => {},
            Ok(gpu) => {
                if !(bytes > gpu.l2_bytes) {
                    match s.known_device(device) {
                        Err(e) => {},
                        Ok(was) => {
                            let lines = was.persist_lines;
                            let lines = lines_trimmed(lines, 0, bytes);
                            match s.gpu_rt(device) {
                                Err(e) => {},
                                Ok(rt) => {
                                    let rt = GpuRtView {
                                        persist_limit: bytes,
                                        persist_lines: lines,
                                        ..rt
                                    };
                                    gpu_follows(z, s, device, rt);
                                    let s = SimState { gpus: s.gpus.insert(device, rt), ..s };
                                    tick_follows(z, s, 1);
                                },
                            }
                        },
                    }
                }
            },
        },
    }
}

/// [`Sim::reset_persisting_l2_cache`] continues the history.
pub proof fn reset_persisting_l2_cache_follows(z: SimState, s0: SimState, device: DeviceId)
    requires
        follows(z, s0),
    ensures
        follows(z, s0.reset_persisting_l2_cache(device).0),
{
    let s = s0;
    match s.fail_if_capturing("cannot capture persisting L2") {
        Err(e) => {},
        Ok(_v) => match s.profile.gpu(device) {
            Err(e) => {},
            Ok(_gpu) => match s.known_device(device) {
                Err(e) => {},
                Ok(_known) => match s.gpu_rt(device) {
                    Err(e) => {},
                    Ok(rt) => {
                        let rt = GpuRtView { persist_lines: Seq::empty(), ..rt };
                        gpu_follows(z, s, device, rt);
                        let s = SimState { gpus: s.gpus.insert(device, rt), ..s };
                        tick_follows(z, s, 1);
                    },
                },
            },
        },
    }
}

/// [`Sim::enable_persisting_l2`] continues the history.
pub proof fn enable_persisting_l2_follows(z: SimState, s0: SimState)
    requires
        follows(z, s0),
    ensures
        follows(z, s0.enable_persisting_l2().0),
{
    let s = s0;
    enable_persisting_l2_from_follows(z, s, 0);
}

/// [`Sim::enable_persisting_l2`] continues the history, from position `i` on.
pub proof fn enable_persisting_l2_from_follows(z: SimState, s0: SimState, i: int)
    requires
        follows(z, s0),
    ensures
        follows(z, s0.enable_persisting_l2_from(i).0),
    decreases s0.profile.gpus.len() - i,
{
    let s = s0;
    if 0 <= i < s.profile.gpus.len() {
        let g = s.profile.gpus[i];
        if !(g.l2_bytes == 0) {
            set_persisting_l2_cache_size_follows(z, s, g.id, g.l2_bytes);
            match s.set_persisting_l2_cache_size(g.id, g.l2_bytes) {
                (s, Err(e)) => {},
                (s, Ok(_v)) => {
                    enable_persisting_l2_from_follows(z, s, i + 1);
                },
            }
        }
    }
}

/// [`Sim::set_limit`] continues the history.
pub proof fn set_limit_follows(
    z: SimState,
    s0: SimState,
    device: DeviceId,
    limit: DeviceLimit,
    value: u64,
)
    requires
        follows(z, s0),
    ensures
        follows(z, s0.set_limit(device, limit, value).0),
{
    let s = s0;
    if limit == DeviceLimit::PersistingL2CacheSize {
        set_persisting_l2_cache_size_follows(z, s, device, value);
    } else {
        match s.fail_if_capturing("cannot capture set limit") {
            Err(e) => {},
            Ok(_v) => match s.profile.gpu(device) {
                Err(e) => {},
                Ok(_gpu) => match s.gpu_rt(device) {
                    Err(e) => {},
                    Ok(was) => match s.limits_with(was.limits, limit, value) {
                        Err(e) => {},
                        Ok(limits) => match s.gpu_rt(device) {
                            Err(e) => {},
                            Ok(rt) => {
                                let rt = GpuRtView { limits: limits, ..rt };
                                gpu_follows(z, s, device, rt);
                                let s = SimState { gpus: s.gpus.insert(device, rt), ..s };
                                tick_follows(z, s, 1);
                            },
                        },
                    },
                },
            },
        }
    }
}

/// [`Sim::set_non_portable_cluster_size_allowed`] continues the history.
pub proof fn set_non_portable_cluster_size_allowed_follows(
    z: SimState,
    s0: SimState,
    device: DeviceId,
    allowed: bool,
)
    requires
        follows(z, s0),
    ensures
        follows(z, s0.set_non_portable_cluster_size_allowed(device, allowed).0),
{
    let s = s0;
    match s.profile.gpu(device) {
        Err(e) => {},
        Ok(_gpu) => {
            if allowed {
                rest_follows(
                    z,
                    s,
                    SimState { non_portable_cluster: s.non_portable_cluster.insert(device), ..s },
                );
            } else {
                rest_follows(
                    z,
                    s,
                    SimState { non_portable_cluster: s.non_portable_cluster.remove(device), ..s },
                );
            }
            let s = if allowed {
                let s = SimState {
                    non_portable_cluster: s.non_portable_cluster.insert(device),
                    ..s
                };
                s
            } else {
                let s = SimState {
                    non_portable_cluster: s.non_portable_cluster.remove(device),
                    ..s
                };
                s
            };
            tick_follows(z, s, 1);
        },
    }
}

/// [`Sim::set_max_dynamic_shared_memory`] continues the history.
pub proof fn set_max_dynamic_shared_memory_follows(
    z: SimState,
    s0: SimState,
    device: DeviceId,
    bytes: u32,
)
    requires
        follows(z, s0),
    ensures
        follows(z, s0.set_max_dynamic_shared_memory(device, bytes).0),
{
    let s = s0;
    match s.profile.gpu(device) {
        Err(e) => {},
        Ok(gpu) => {
            if !(bytes > max_u32(gpu.max_shared_mem_per_block_optin, 1)) {
                if bytes == 0 {
                    rest_follows(
                        z,
                        s,
                        SimState { max_dynamic_shared: s.max_dynamic_shared.remove(device), ..s },
                    );
                } else {
                    rest_follows(
                        z,
                        s,
                        SimState {
                            max_dynamic_shared: s.max_dynamic_shared.insert(device, bytes),
                            ..s
                        },
                    );
                }
                let s = if bytes == 0 {
                    let s = SimState {
                        max_dynamic_shared: s.max_dynamic_shared.remove(device),
                        ..s
                    };
                    s
                } else {
                    let s = SimState {
                        max_dynamic_shared: s.max_dynamic_shared.insert(device, bytes),
                        ..s
                    };
                    s
                };
                tick_follows(z, s, 1);
            }
        },
    }
}

/// [`Sim::func_set_attribute`] continues the history.
pub proof fn func_set_attribute_follows(
    z: SimState,
    s0: SimState,
    device: DeviceId,
    attr: FuncAttr,
    value: i32,
)
    requires
        follows(z, s0),
    ensures
        follows(z, s0.func_set_attribute(device, attr, value).0),
{
    let s = s0;
    if !(value < 0) {
        match attr {
            FuncAttr::MaxDynamicSharedMemorySize => {
                set_max_dynamic_shared_memory_follows(z, s, device, value as u32);
            },
            FuncAttr::NonPortableClusterSizeAllowed => {
                if !(value != 0 && value != 1) {
                    set_non_portable_cluster_size_allowed_follows(z, s, device, value != 0);
                }
            },
        }
    }
}

} // verus!
