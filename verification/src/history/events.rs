//! Histories of the operations in `sim::events`.
use vstd::prelude::*;
use crate::history::follows;
use crate::history::shape::event_follows;
use crate::ids::{EventId, OpId};
use crate::ops::EventCreateFlags;
use crate::sim::SimState;
use crate::state::Ev;

verus! {

/// [`Sim::create_event`] continues the history.
pub proof fn create_event_follows(z: SimState, s0: SimState, event: EventId)
    requires
        follows(z, s0),
    ensures
        follows(z, s0.create_event(event).0),
{
    let s = s0;
    create_event_with_flags_follows(z, s, event, EventCreateFlags::DEFAULT);
}

/// [`Sim::create_event_disable_timing`] continues the history.
pub proof fn create_event_disable_timing_follows(z: SimState, s0: SimState, event: EventId)
    requires
        follows(z, s0),
    ensures
        follows(z, s0.create_event_disable_timing(event).0),
{
    let s = s0;
    create_event_with_flags_follows(z, s, event, EventCreateFlags::DISABLE_TIMING);
}

/// [`Sim::create_event_interprocess`] continues the history.
pub proof fn create_event_interprocess_follows(z: SimState, s0: SimState, event: EventId)
    requires
        follows(z, s0),
    ensures
        follows(z, s0.create_event_interprocess(event).0),
{
    let s = s0;
    create_event_with_flags_follows(
        z,
        s,
        event,
        EventCreateFlags::DISABLE_TIMING | EventCreateFlags::INTERPROCESS,
    );
}

/// [`Sim::create_event_with_flags`] continues the history.
pub proof fn create_event_with_flags_follows(z: SimState, s0: SimState, event: EventId, flags: u32)
    requires
        follows(z, s0),
    ensures
        follows(z, s0.create_event_with_flags(event, flags).0),
{
    let s = s0;
    if !(flags&!(EventCreateFlags::DISABLE_TIMING | EventCreateFlags::INTERPROCESS) != 0) {
        let disable = flags&EventCreateFlags::DISABLE_TIMING != 0;
        let interprocess = flags&EventCreateFlags::INTERPROCESS != 0;
        if !(interprocess && !disable) {
            insert_event_follows(z, s, event, !disable, interprocess);
        }
    }
}

/// [`Sim::insert_event`] continues the history.
pub proof fn insert_event_follows(
    z: SimState,
    s0: SimState,
    event: EventId,
    timing: bool,
    interprocess: bool,
)
    requires
        follows(z, s0),
    ensures
        follows(z, s0.insert_event(event, timing, interprocess).0),
{
    let s = s0;
    match s.fail_if_capturing("cannot capture event create") {
        Err(e) => {},
        Ok(_v) => {
            if !(s.events.contains_key(event)) {
                let ev = Ev::new(timing);
                let ev = Ev { interprocess: interprocess, ..ev };
                event_follows(z, s, event, ev);
            }
        },
    }
}

/// [`Sim::ensure_event`] continues the history.
pub proof fn ensure_event_follows(z: SimState, s0: SimState, event: EventId)
    requires
        follows(z, s0),
    ensures
        follows(z, s0.ensure_event(event)),
{
    let s = s0;
    if !s.events.contains_key(event) {
        event_follows(z, s, event, Ev::new(true));
    }
}

/// [`Sim::mark_recorded`] continues the history.
pub proof fn mark_recorded_follows(z: SimState, s0: SimState, root: EventId, op: OpId)
    requires
        follows(z, s0),
    ensures
        follows(z, s0.mark_recorded(root, op)),
{
    let s = s0;
    match s.events.get(root) {
        Some(ev) => {
            let ev = Ev { recorded_by: Some(op), ..ev };
            event_follows(z, s, root, ev);
        },
        _ => {},
    }
}

} // verus!
