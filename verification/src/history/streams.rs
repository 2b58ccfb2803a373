//! Histories of the operations in `sim::streams`.
use vstd::prelude::*;
use crate::history::{follows, gpu_follows, rest_follows};
use crate::history::ranges::{
    domains_follows, domains_gone_follows, share_follows, share_gone_follows,
};
use crate::ids::{DeviceId, Lane, Peer, StreamId};
use crate::num::max_u8;
use crate::ops::{
    MemSyncDomain, MemSyncDomainMap, PeerAccessFlags, StreamAttr, StreamAttrValue,
    StreamCreateFlags, SynchronizationPolicy,
};
use crate::sim::SimState;
use crate::state::GpuRtView;

verus! {

/// [`Sim::set_unavailable`] continues the history.
pub proof fn set_unavailable_follows(z: SimState, s0: SimState, device: DeviceId, yes: bool)
    requires
        follows(z, s0),
    ensures
        follows(z, s0.set_unavailable(device, yes).0),
{
    let s = s0;
    match s.profile.gpu(device) {
        Err(e) => {},
        Ok(_gpu) => if yes {
            rest_follows(z, s, SimState { unavailable: s.unavailable.insert(device), ..s });
        } else {
            rest_follows(z, s, SimState { unavailable: s.unavailable.remove(device), ..s });
        },
    }
}

/// [`Sim::fail_next_memcpy`] continues the history.
pub proof fn fail_next_memcpy_follows(z: SimState, s0: SimState)
    requires
        follows(z, s0),
    ensures
        follows(z, s0.fail_next_memcpy()),
{
    let s = s0;
    rest_follows(z, s, SimState { fail_next_memcpy: true, ..s });
}

/// [`Sim::set_extra_transfer_ns`] continues the history.
pub proof fn set_extra_transfer_ns_follows(z: SimState, s0: SimState, ns: u64)
    requires
        follows(z, s0),
    ensures
        follows(z, s0.set_extra_transfer_ns(ns)),
{
    let s = s0;
    rest_follows(z, s, SimState { extra_transfer_ns: ns, ..s });
}

/// [`Sim::set_stream_priority`] continues the history.
pub proof fn set_stream_priority_follows(
    z: SimState,
    s0: SimState,
    device: DeviceId,
    stream: StreamId,
    priority: i32,
)
    requires
        follows(z, s0),
    ensures
        follows(z, s0.set_stream_priority(device, stream, priority).0),
{
    let s = s0;
    match s.profile.gpu(device) {
        Err(e) => {},
        Ok(_gpu) => {
            rest_follows(
                z,
                s,
                SimState { priority: s.priority.insert(Lane(device, stream), priority), ..s },
            );
        },
    }
}

/// [`Sim::set_stream_sm_permille`] continues the history.
pub proof fn set_stream_sm_permille_follows(
    z: SimState,
    s0: SimState,
    device: DeviceId,
    stream: StreamId,
    permille: u16,
)
    requires
        follows(z, s0),
    ensures
        follows(z, s0.set_stream_sm_permille(device, stream, permille).0),
{
    let s = s0;
    match s.profile.gpu(device) {
        Err(e) => {},
        Ok(_gpu) => {
            if !(permille == 0 || permille > 1000) {
                share_follows(z, s, Lane(device, stream), permille);
            }
        },
    }
}

/// [`Sim::set_stream_mem_sync_domain`] continues the history.
pub proof fn set_stream_mem_sync_domain_follows(
    z: SimState,
    s0: SimState,
    device: DeviceId,
    stream: StreamId,
    domain: MemSyncDomain,
)
    requires
        follows(z, s0),
    ensures
        follows(z, s0.set_stream_mem_sync_domain(device, stream, domain).0),
{
    let s = s0;
    match s.profile.gpu(device) {
        Err(e) => {},
        Ok(_gpu) => {
            rest_follows(
                z,
                s,
                SimState {
                    stream_mem_sync_domain: s.stream_mem_sync_domain.insert(
                        Lane(device, stream),
                        domain,
                    ),
                    ..s
                },
            );
        },
    }
}

/// [`Sim::set_stream_mem_sync_domain_map`] continues the history.
pub proof fn set_stream_mem_sync_domain_map_follows(
    z: SimState,
    s0: SimState,
    device: DeviceId,
    stream: StreamId,
    map: MemSyncDomainMap,
)
    requires
        follows(z, s0),
    ensures
        follows(z, s0.set_stream_mem_sync_domain_map(device, stream, map).0),
{
    let s = s0;
    match s.validate_mem_sync_map(device, map) {
        Err(e) => {},
        Ok(_v) => {
            domains_follows(z, s, Lane(device, stream), map);
        },
    }
}

/// [`Sim::set_stream_sync_policy`] continues the history.
pub proof fn set_stream_sync_policy_follows(
    z: SimState,
    s0: SimState,
    device: DeviceId,
    stream: StreamId,
    policy: SynchronizationPolicy,
)
    requires
        follows(z, s0),
    ensures
        follows(z, s0.set_stream_sync_policy(device, stream, policy).0),
{
    let s = s0;
    match s.profile.gpu(device) {
        Err(e) => {},
        Ok(_gpu) => {
            rest_follows(
                z,
                s,
                SimState {
                    stream_sync_policy: s.stream_sync_policy.insert(Lane(device, stream), policy),
                    ..s
                },
            );
        },
    }
}

/// [`Sim::set_stream_nvlink_util_centric`] continues the history.
pub proof fn set_stream_nvlink_util_centric_follows(
    z: SimState,
    s0: SimState,
    device: DeviceId,
    stream: StreamId,
    enabled: bool,
)
    requires
        follows(z, s0),
    ensures
        follows(z, s0.set_stream_nvlink_util_centric(device, stream, enabled).0),
{
    let s = s0;
    match s.profile.gpu(device) {
        Err(e) => {},
        Ok(_gpu) => if enabled {
            rest_follows(
                z,
                s,
                SimState {
                    stream_nvlink_util_centric: s.stream_nvlink_util_centric.insert(
                        Lane(device, stream),
                    ),
                    ..s
                },
            );
        } else {
            rest_follows(
                z,
                s,
                SimState {
                    stream_nvlink_util_centric: s.stream_nvlink_util_centric.remove(
                        Lane(device, stream),
                    ),
                    ..s
                },
            );
        },
    }
}

/// [`Sim::copy_stream_sm`] continues the history.
pub proof fn copy_stream_sm_follows(
    z: SimState,
    s0: SimState,
    device: DeviceId,
    dst: StreamId,
    src: StreamId,
)
    requires
        follows(z, s0),
    ensures
        follows(z, s0.copy_stream_sm(device, dst, src).0),
{
    let s = s0;
    match s.sm_permille.get(Lane(device, src)) {
        Some(sm) => {
            let permille = sm;
            set_stream_sm_permille_follows(z, s, device, dst, permille);
        },
        None => {
            share_gone_follows(z, s, Lane(device, dst));
        },
    }
}

/// [`Sim::copy_stream_domain`] continues the history.
pub proof fn copy_stream_domain_follows(
    z: SimState,
    s0: SimState,
    device: DeviceId,
    dst: StreamId,
    src: StreamId,
)
    requires
        follows(z, s0),
    ensures
        follows(z, s0.copy_stream_domain(device, dst, src)),
{
    let s = s0;
    match s.stream_mem_sync_domain.get(Lane(device, src)) {
        Some(d) => {
            let domain = d;
            rest_follows(
                z,
                s,
                SimState {
                    stream_mem_sync_domain: s.stream_mem_sync_domain.insert(
                        Lane(device, dst),
                        domain,
                    ),
                    ..s
                },
            );
        },
        None => {
            rest_follows(
                z,
                s,
                SimState {
                    stream_mem_sync_domain: s.stream_mem_sync_domain.remove(Lane(device, dst)),
                    ..s
                },
            );
        },
    }
}

/// [`Sim::copy_stream_map`] continues the history.
pub proof fn copy_stream_map_follows(
    z: SimState,
    s0: SimState,
    device: DeviceId,
    dst: StreamId,
    src: StreamId,
)
    requires
        follows(z, s0),
    ensures
        follows(z, s0.copy_stream_map(device, dst, src).0),
{
    let s = s0;
    match s.stream_mem_sync_map.get(Lane(device, src)) {
        Some(m) => {
            let map = m;
            set_stream_mem_sync_domain_map_follows(z, s, device, dst, map);
        },
        None => {
            domains_gone_follows(z, s, Lane(device, dst));
        },
    }
}

/// [`Sim::copy_stream_policy`] continues the history.
pub proof fn copy_stream_policy_follows(
    z: SimState,
    s0: SimState,
    device: DeviceId,
    dst: StreamId,
    src: StreamId,
)
    requires
        follows(z, s0),
    ensures
        follows(z, s0.copy_stream_policy(device, dst, src)),
{
    let s = s0;
    match s.stream_sync_policy.get(Lane(device, src)) {
        Some(p) => {
            let policy = p;
            rest_follows(
                z,
                s,
                SimState {
                    stream_sync_policy: s.stream_sync_policy.insert(Lane(device, dst), policy),
                    ..s
                },
            );
        },
        None => {
            rest_follows(
                z,
                s,
                SimState {
                    stream_sync_policy: s.stream_sync_policy.remove(Lane(device, dst)),
                    ..s
                },
            );
        },
    }
}

/// [`Sim::stream_copy_attributes`] continues the history.
pub proof fn stream_copy_attributes_follows(
    z: SimState,
    s0: SimState,
    dst_device: DeviceId,
    dst: StreamId,
    src_device: DeviceId,
    src: StreamId,
)
    requires
        follows(z, s0),
    ensures
        follows(z, s0.stream_copy_attributes(dst_device, dst, src_device, src).0),
{
    let s = s0;
    if !(dst_device != src_device) {
        match s.profile.gpu(src_device) {
            Err(e) => {},
            Ok(_gpu) => {
                let pri = s.stream_priority(src_device, src);
                let nvlink = s.stream_nvlink_util_centric(src_device, src);
                set_stream_priority_follows(z, s, dst_device, dst, pri);
                match s.set_stream_priority(dst_device, dst, pri) {
                    (s, Err(e)) => {},
                    (s, Ok(_v)) => {
                        copy_stream_sm_follows(z, s, src_device, dst, src);
                        match s.copy_stream_sm(src_device, dst, src) {
                            (s, Err(e)) => {},
                            (s, Ok(_v)) => {
                                copy_stream_domain_follows(z, s, src_device, dst, src);
                                let s = s.copy_stream_domain(src_device, dst, src);
                                copy_stream_map_follows(z, s, src_device, dst, src);
                                match s.copy_stream_map(src_device, dst, src) {
                                    (s, Err(e)) => {},
                                    (s, Ok(_v)) => {
                                        copy_stream_policy_follows(z, s, src_device, dst, src);
                                        let s = s.copy_stream_policy(src_device, dst, src);
                                        set_stream_nvlink_util_centric_follows(
                                            z,
                                            s,
                                            dst_device,
                                            dst,
                                            nvlink,
                                        );
                                    },
                                }
                            },
                        }
                    },
                }
            },
        }
    }
}

/// [`Sim::set_legacy_null_stream`] continues the history.
pub proof fn set_legacy_null_stream_follows(z: SimState, s0: SimState, yes: bool)
    requires
        follows(z, s0),
    ensures
        follows(z, s0.set_legacy_null_stream(yes)),
{
    let s = s0;
    rest_follows(z, s, SimState { legacy_null_stream: yes, ..s });
}

/// [`Sim::set_stream_blocking`] continues the history.
pub proof fn set_stream_blocking_follows(
    z: SimState,
    s0: SimState,
    device: DeviceId,
    stream: StreamId,
    yes: bool,
)
    requires
        follows(z, s0),
    ensures
        follows(z, s0.set_stream_blocking(device, stream, yes).0),
{
    let s = s0;
    match s.profile.gpu(device) {
        Err(e) => {},
        Ok(_gpu) => {
            if !(stream.is_null()) {
                if yes {
                    rest_follows(
                        z,
                        s,
                        SimState { blocking: s.blocking.insert(Lane(device, stream)), ..s },
                    );
                } else {
                    rest_follows(
                        z,
                        s,
                        SimState { blocking: s.blocking.remove(Lane(device, stream)), ..s },
                    );
                }
            }
        },
    }
}

/// [`Sim::stream_create_with_flags`] continues the history.
pub proof fn stream_create_with_flags_follows(
    z: SimState,
    s0: SimState,
    device: DeviceId,
    stream: StreamId,
    flags: u32,
)
    requires
        follows(z, s0),
    ensures
        follows(z, s0.stream_create_with_flags(device, stream, flags).0),
{
    let s = s0;
    match s.fail_if_capturing("cannot capture stream create") {
        Err(e) => {},
        Ok(_v) => {
            if !(flags&!StreamCreateFlags::NON_BLOCKING != 0) {
                set_stream_blocking_follows(
                    z,
                    s,
                    device,
                    stream,
                    flags&StreamCreateFlags::NON_BLOCKING == 0,
                );
            }
        },
    }
}

/// [`Sim::stream_create_with_priority`] continues the history.
pub proof fn stream_create_with_priority_follows(
    z: SimState,
    s0: SimState,
    device: DeviceId,
    stream: StreamId,
    flags: u32,
    priority: i32,
)
    requires
        follows(z, s0),
    ensures
        follows(z, s0.stream_create_with_priority(device, stream, flags, priority).0),
{
    let s = s0;
    stream_create_with_flags_follows(z, s, device, stream, flags);
    match s.stream_create_with_flags(device, stream, flags) {
        (s, Err(e)) => {},
        (s, Ok(_v)) => {
            set_stream_priority_follows(z, s, device, stream, priority);
        },
    }
}

/// [`Sim::stream_set_attribute`] continues the history.
pub proof fn stream_set_attribute_follows(
    z: SimState,
    s0: SimState,
    device: DeviceId,
    stream: StreamId,
    attr: StreamAttr,
    value: StreamAttrValue,
)
    requires
        follows(z, s0),
    ensures
        follows(z, s0.stream_set_attribute(device, stream, attr, value).0),
{
    let s = s0;
    match (attr, value) {
        (StreamAttr::Priority, StreamAttrValue::Priority(p)) => {
            set_stream_priority_follows(z, s, device, stream, p);
        },
        (StreamAttr::SynchronizationPolicy, StreamAttrValue::SynchronizationPolicy(policy)) => {
            set_stream_sync_policy_follows(z, s, device, stream, policy);
        },
        (StreamAttr::MemSyncDomain, StreamAttrValue::MemSyncDomain(domain)) => {
            set_stream_mem_sync_domain_follows(z, s, device, stream, domain);
        },
        (StreamAttr::MemSyncDomainMap, StreamAttrValue::MemSyncDomainMap(map)) => {
            set_stream_mem_sync_domain_map_follows(z, s, device, stream, map);
        },
        (StreamAttr::NvlinkUtilCentric, StreamAttrValue::NvlinkUtilCentric(yes)) => {
            set_stream_nvlink_util_centric_follows(z, s, device, stream, yes);
        },
        _ => {},
    }
}

/// [`Sim::take_compute`] continues the history.
pub proof fn take_compute_follows(z: SimState, s0: SimState, device: DeviceId)
    requires
        follows(z, s0),
    ensures
        follows(z, s0.take_compute(device).0),
{
    let s = s0;
    take_compute_n_follows(z, s, device, 1);
}

/// [`Sim::take_compute_n`] continues the history.
pub proof fn take_compute_n_follows(z: SimState, s0: SimState, device: DeviceId, n: u8)
    requires
        follows(z, s0),
    ensures
        follows(z, s0.take_compute_n(device, n).0),
{
    reveal(SimState::take_compute_n);
    let s = s0;
    match s.profile.gpu(device) {
        Err(e) => {},
        Ok(gpu) => {
            let cap = max_u8(gpu.compute_slots, 1);
            match s.gpu_rt(device) {
                Err(e) => {},
                Ok(rt) => {
                    let taken = rt.compute.saturating_add(max_u8(n, 1));
                    if !(taken > cap) {
                        match s.gpu_rt(device) {
                            Err(e) => {},
                            Ok(rt) => {
                                gpu_follows(z, s, device, GpuRtView { compute: taken, ..rt });
                            },
                        }
                    }
                },
            }
        },
    }
}

/// [`Sim::drop_compute`] continues the history.
pub proof fn drop_compute_follows(z: SimState, s0: SimState, device: DeviceId)
    requires
        follows(z, s0),
    ensures
        follows(z, s0.drop_compute(device).0),
{
    let s = s0;
    drop_compute_n_follows(z, s, device, 1);
}

/// [`Sim::drop_compute_n`] continues the history.
pub proof fn drop_compute_n_follows(z: SimState, s0: SimState, device: DeviceId, n: u8)
    requires
        follows(z, s0),
    ensures
        follows(z, s0.drop_compute_n(device, n).0),
{
    let s = s0;
    match s.gpu_rt(device) {
        Err(e) => {},
        Ok(rt) => {
            let rt = GpuRtView { compute: rt.compute.saturating_sub(max_u8(n, 1)), ..rt };
            gpu_follows(z, s, device, rt);
        },
    }
}

/// [`Sim::enable_peer`] continues the history.
pub proof fn enable_peer_follows(z: SimState, s0: SimState, src: DeviceId, dst: DeviceId)
    requires
        follows(z, s0),
    ensures
        follows(z, s0.enable_peer(src, dst).0),
{
    let s = s0;
    if !(src == dst) {
        match s.profile.link(Some(src), Some(dst)) {
            Err(e) => {},
            Ok(_link) => {
                rest_follows(
                    z,
                    s,
                    SimState { peer_enabled: s.peer_enabled.insert(Peer(src, dst)), ..s },
                );
            },
        }
    }
}

/// [`Sim::enable_peer_with_flags`] continues the history.
pub proof fn enable_peer_with_flags_follows(
    z: SimState,
    s0: SimState,
    src: DeviceId,
    dst: DeviceId,
    flags: u32,
)
    requires
        follows(z, s0),
    ensures
        follows(z, s0.enable_peer_with_flags(src, dst, flags).0),
{
    let s = s0;
    if !(flags != PeerAccessFlags::DEFAULT) {
        enable_peer_follows(z, s, src, dst);
    }
}

/// [`Sim::disable_peer`] continues the history.
pub proof fn disable_peer_follows(z: SimState, s0: SimState, src: DeviceId, dst: DeviceId)
    requires
        follows(z, s0),
    ensures
        follows(z, s0.disable_peer(src, dst).0),
{
    let s = s0;
    if !(src == dst) {
        match s.profile.gpu(src) {
            Err(e) => {},
            Ok(_gpu_s) => match s.profile.gpu(dst) {
                Err(e) => {},
                Ok(_gpu_d) => {
                    rest_follows(
                        z,
                        s,
                        SimState { peer_enabled: s.peer_enabled.remove(Peer(src, dst)), ..s },
                    );
                },
            },
        }
    }
}

} // verus!
