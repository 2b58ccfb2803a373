//! Streams, peers and device settings.
use vstd::prelude::*;
use crate::error::SimError;
use crate::history::{follows, history};
use crate::ids::{DeviceId, EventId, Lane, OpId, Peer, StreamId};
use crate::laws::start::fresh_is_sound;
use crate::ops::{
    DeviceLimit, EventCreateFlags, FuncAttr, GpuOpView, StreamAttr, StreamAttrValue,
    StreamCaptureMode,
};
use crate::persist::{lines_trimmed, lines_used};
use crate::profile::ProfileView;
use crate::sim::SimState;
use crate::state::{LaunchCost, PersistLine};

verus! {

/// A stream attribute reads back as it was set.
pub proof fn stream_attribute_read_back(
    s: SimState,
    device: DeviceId,
    stream: StreamId,
    attr: StreamAttr,
    value: StreamAttrValue,
)
    requires
        s.stream_set_attribute(device, stream, attr, value).1 is Ok,
    ensures
        s.stream_set_attribute(device, stream, attr, value).0.stream_get_attribute(
            device,
            stream,
            attr,
        ) == Ok::<StreamAttrValue, SimError>(value),
{
}

/// Setting an attribute of one stream changes no attribute of another one.
pub proof fn stream_attribute_stays(
    s: SimState,
    device: DeviceId,
    stream: StreamId,
    attr: StreamAttr,
    value: StreamAttrValue,
    other_device: DeviceId,
    other: StreamId,
    read: StreamAttr,
)
    requires
        Lane(other_device, other) != Lane(device, stream),
    ensures
        s.stream_set_attribute(device, stream, attr, value).0.stream_get_attribute(
            other_device,
            other,
            read,
        ) == s.stream_get_attribute(other_device, other, read),
{
}

/// A refused attribute changes nothing.
pub proof fn stream_attribute_refused(
    s: SimState,
    device: DeviceId,
    stream: StreamId,
    attr: StreamAttr,
    value: StreamAttrValue,
)
    requires
        s.stream_set_attribute(device, stream, attr, value).1 is Err,
    ensures
        s.stream_set_attribute(device, stream, attr, value).0 == s,
{
}

/// Whatever is done to a new simulator, the share of the multiprocessors that is stored for a stream
/// lies between one and a thousand, and a stored map of domains names domains that the GPU has.
pub proof fn stream_settings_are_valid(profile: ProfileView, s: SimState, lane: Lane)
    requires
        follows(SimState::fresh(profile), s),
    ensures
        s.sm_permille.contains_key(lane) ==> 1 <= s.sm_permille[lane] <= 1000,
        s.stream_mem_sync_map.contains_key(lane) ==> s.validate_mem_sync_map(
            lane.0,
            s.stream_mem_sync_map[lane],
        ) is Ok,
{
    fresh_is_sound(profile);
    history(SimState::fresh(profile), s);
    reveal(crate::history::ranges::shares_valid);
    reveal(crate::history::ranges::domains_valid);
}

/// Whatever is done to a new simulator, the attributes of a stream can be copied to another one of
/// its GPU. The other one then has what the first had; the first and all other streams keep theirs.
pub proof fn stream_attributes_copied(
    profile: ProfileView,
    s: SimState,
    device: DeviceId,
    dst: StreamId,
    src: StreamId,
    attr: StreamAttr,
    other: Lane,
)
    requires
        follows(SimState::fresh(profile), s),
        s.profile.gpu(device) is Ok,
    ensures
        ({
            let (t, r) = s.stream_copy_attributes(device, dst, device, src);
            &&& r is Ok
            &&& t.stream_get_attribute(device, dst, attr) == s.stream_get_attribute(
                device,
                src,
                attr,
            )
            &&& t.stream_sm_permille(device, dst) == s.stream_sm_permille(device, src)
            &&& other != Lane(device, dst) ==> {
                &&& t.stream_get_attribute(other.0, other.1, attr) == s.stream_get_attribute(
                    other.0,
                    other.1,
                    attr,
                )
                &&& t.stream_sm_permille(other.0, other.1) == s.stream_sm_permille(
                    other.0,
                    other.1,
                )
            }
            &&& t.clock == s.clock
            &&& t.ops == s.ops
        }),
{
    stream_settings_are_valid(profile, s, Lane(device, src));
}

/// A share of the multiprocessors that was accepted reads back and lies between 1 and 1000.
pub proof fn sm_share_read_back(s: SimState, device: DeviceId, stream: StreamId, permille: u16)
    requires
        s.set_stream_sm_permille(device, stream, permille).1 is Ok,
    ensures
        1 <= permille <= 1000,
        s.set_stream_sm_permille(device, stream, permille).0.stream_sm_permille(device, stream)
            == permille,
{
}

/// Stream ids are unique in the node.
pub proof fn stream_ids_differ(
    s: SimState,
    device: DeviceId,
    stream: StreamId,
    other_device: DeviceId,
    other: StreamId,
)
    requires
        s.stream_get_id(device, stream) is Ok,
        s.stream_get_id(device, stream) == s.stream_get_id(other_device, other),
    ensures
        device == other_device,
        stream == other,
{
    let a = device.0 as u64;
    let b = other_device.0 as u64;
    assert(a <= 0xffff ==> a << 16 == a * 0x1_0000) by (bit_vector);
    assert(b <= 0xffff ==> b << 16 == b * 0x1_0000) by (bit_vector);
}

/// Peer access is directed: enabling one pair lets that pair through and changes no other one.
pub proof fn peer_enabled(s: SimState, src: DeviceId, dst: DeviceId, a: DeviceId, b: DeviceId)
    requires
        s.enable_peer(src, dst).1 is Ok,
    ensures
        s.enable_peer(src, dst).0.peer_access(src, dst),
        Peer(a, b) != Peer(src, dst) ==> s.enable_peer(src, dst).0.peer_access(a, b)
            == s.peer_access(a, b),
{
}

/// A pair of two devices that was switched off no longer has peer access, and no other pair
/// changes.
pub proof fn peer_disabled(s: SimState, src: DeviceId, dst: DeviceId, a: DeviceId, b: DeviceId)
    requires
        src != dst,
        s.disable_peer(src, dst).1 is Ok,
    ensures
        !s.disable_peer(src, dst).0.peer_access(src, dst),
        Peer(a, b) != Peer(src, dst) ==> s.disable_peer(src, dst).0.peer_access(a, b)
            == s.peer_access(a, b),
{
}

/// Setting the capture mode back gives the state back.
pub proof fn capture_mode_exchanged(s: SimState, mode: StreamCaptureMode)
    ensures
        s.thread_exchange_stream_capture_mode(mode).1 == s.stream_capture_mode(),
        s.thread_exchange_stream_capture_mode(mode).0.stream_capture_mode() == mode,
        s.thread_exchange_stream_capture_mode(mode).0.thread_exchange_stream_capture_mode(
            s.thread_exchange_stream_capture_mode(mode).1,
        ) == (s, mode),
{
}

/// A device limit reads back as it was set, and the other limits stay.
pub proof fn limit_read_back(
    s: SimState,
    device: DeviceId,
    limit: DeviceLimit,
    value: u64,
    other: DeviceLimit,
)
    requires
        s.set_limit(device, limit, value).1 is Ok,
    ensures
        s.set_limit(device, limit, value).0.get_limit(device, limit) == Ok::<u64, SimError>(value),
        other != limit ==> s.set_limit(device, limit, value).0.get_limit(device, other)
            == s.get_limit(device, other),
{
}

/// A function attribute reads back as it was set.
pub proof fn func_attribute_read_back(s: SimState, device: DeviceId, attr: FuncAttr, value: i32)
    requires
        s.func_set_attribute(device, attr, value).1 is Ok,
    ensures
        s.func_set_attribute(device, attr, value).0.func_get_attribute(device, attr) == Ok::<
            i32,
            SimError,
        >(value),
{
}

/// A device out of service takes no new work.
pub proof fn unavailable_refuses(
    s: SimState,
    device: DeviceId,
    stream: StreamId,
    kind: GpuOpView,
    launch: LaunchCost,
)
    requires
        s.set_unavailable(device, true).1 is Ok,
    ensures
        ({
            let t = s.set_unavailable(device, true).0;
            t.submit_launch(device, stream, kind, launch) == (
                t,
                Err::<OpId, SimError>(SimError::Unavailable { device }),
            )
        }),
{
}

/// Trimming persisting L2 to its capacity leaves no more lines than fit.
pub proof fn persisting_lines_fit(s: SimState, device: DeviceId, bytes: u64)
    requires
        s.set_persisting_l2_cache_size(device, bytes).1 is Ok,
    ensures
        lines_used(s.set_persisting_l2_cache_size(device, bytes).0.gpus[device].persist_lines)
            <= bytes,
{
    trimmed_lines_fit(s.gpus[device].persist_lines, 0, bytes);
}

/// Trimmed lines leave the room asked for, unless nothing is left.
pub proof fn trimmed_lines_fit(q: Seq<PersistLine>, room: u64, limit: u64)
    ensures
        lines_trimmed(q, room, limit).len() == 0 || lines_used(
            lines_trimmed(q, room, limit),
        ).saturating_add(room) <= limit,
    decreases q.len(),
{
    if q.len() > 0 && lines_used(q).saturating_add(room) > limit {
        trimmed_lines_fit(q.skip(1), room, limit);
    }
}

/// A destroyed event is unknown, and outside a capture it may be created again.
pub proof fn destroyed_event_is_unknown(s: SimState, event: EventId)
    requires
        s.destroy_event(event).1 is Ok,
        s.event_ref(event)->Ok_0.ipc_src != Some(event),
    ensures
        ({
            let t = s.destroy_event(event).0;
            &&& t.query_event(event) == Err::<bool, SimError>(
                SimError::UnknownEvent { event: event.0 },
            )
            &&& t.capturing is None ==> t.create_event(event).1 is Ok
        }),
{
    reveal(SimState::drop_event);
    assert(0u32 & !(EventCreateFlags::DISABLE_TIMING | EventCreateFlags::INTERPROCESS) == 0)
        by (bit_vector);
    assert(0u32 & EventCreateFlags::INTERPROCESS == 0) by (bit_vector);
}

} // verus!
