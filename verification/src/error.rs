//! Refusals of the simulated node.
use vstd::prelude::*;
use crate::ids::{AllocId, DeviceId, StreamId};

verus! {

/// Why a request was refused.
#[derive(Clone, Copy, PartialEq, Eq, Debug)]
pub enum SimError {
    /// The request is not legal in this state.
    Invalid { why: &'static str },
    /// No such allocation, or it is freed.
    UnknownAlloc { alloc: AllocId },
    /// No such event.
    UnknownEvent { event: u32 },
    /// The allocation is in use by a running kernel.
    Leased { alloc: AllocId },
    /// The allocation has no usable copy on the device.
    NotResident { alloc: AllocId, device: DeviceId },
    /// Device memory is exhausted.
    Oom { device: DeviceId, need: u64, free: u64 },
    /// The page-lock budget is exhausted.
    PinOom { need: u64, free: u64 },
    /// No link joins the two places.
    NoPeer { src: DeviceId, dst: DeviceId },
    /// Peer access is switched off.
    PeerDisabled { src: DeviceId, dst: DeviceId },
    /// The device is out of service.
    Unavailable { device: DeviceId },
    /// An injected transfer failure.
    TransferFailed { alloc: AllocId },
    /// Cancelled operations were found while waiting.
    Cancelled { stream: StreamId, n: u32 },
}

/// The refusal with reason `why`.
#[verifier::allow_in_spec]
pub fn invalid(why: &'static str) -> SimError
    returns
        (SimError::Invalid { why }),
{
    SimError::Invalid { why }
}

} // verus!
