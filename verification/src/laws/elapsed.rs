//! The time between two events.
use vstd::prelude::*;
use crate::error::{invalid, SimError};
use crate::history::{follows, history};
use crate::ids::{EventId, IpcEventHandleId};
use crate::laws::start::fresh_is_sound;
use crate::laws::timeline::order_always_holds;
use crate::profile::ProfileView;
use crate::sim::SimState;
use crate::sim::memory::event_number;

verus! {

/// The operation that last recorded the event says when it fired.
pub open spec fn has_stamp(s: SimState, e: EventId) -> bool {
    s.event_done_ns(e) is Ok
}

/// Only known events with timing that are complete have a time between them.
pub proof fn elapsed_is_refused(s: SimState, a: EventId, b: EventId)
    ensures
        !s.events.contains_key(a) ==> s.event_elapsed_ns(a, b) == Err::<u64, SimError>(
            SimError::UnknownEvent { event: a.0 },
        ),
        s.events.contains_key(a) && s.events[a].timing && !s.events.contains_key(b)
            ==> s.event_elapsed_ns(a, b) == Err::<u64, SimError>(
            SimError::UnknownEvent { event: b.0 },
        ),
        s.events.contains_key(a) && s.events.contains_key(b) && !(s.events[a].timing
            && s.events[b].timing && s.event_complete(a) && s.event_complete(b))
            ==> s.event_elapsed_ns(a, b) is Err && s.event_elapsed_ns(a, b)->Err_0 is Invalid,
{
}

/// The time between complete events with timing: none from an event to itself, a time in at least
/// one direction between two, and times add up.
pub proof fn elapsed_adds_up(s: SimState, a: EventId, b: EventId, c: EventId)
    requires
        s.require_event_timing(a) is Ok,
        s.require_event_timing(b) is Ok,
        s.require_event_timing(c) is Ok,
        has_stamp(s, a),
        has_stamp(s, b),
        has_stamp(s, c),
    ensures
        s.event_elapsed_ns(a, a) == Ok::<u64, SimError>(0),
        s.event_elapsed_ns(a, b) is Ok || s.event_elapsed_ns(b, a) is Ok,
        s.event_elapsed_ns(a, b) is Ok && s.event_elapsed_ns(b, a) is Ok ==> s.event_elapsed_ns(
            a,
            b,
        ) == Ok::<u64, SimError>(0),
        s.event_elapsed_ns(a, b) is Ok && s.event_elapsed_ns(b, c) is Ok ==> {
            &&& s.event_elapsed_ns(a, c) is Ok
            &&& s.event_elapsed_ns(a, c)->Ok_0 == s.event_elapsed_ns(a, b)->Ok_0
                + s.event_elapsed_ns(b, c)->Ok_0
        },
{
}

proof fn lemma_free_number(s: SimState, start: u32, k: int)
    ensures
        s.free_event_from(start, k) matches Some(n) ==> !s.events.contains_key(EventId(n)),
    decreases u32::MAX - k,
{
    if k < u32::MAX && s.events.contains_key(EventId(event_number(start, k))) {
        lemma_free_number(s, start, k + 1);
    }
}

/// An imported event is a new one without timing. What it leads to is known, is no import itself and
/// cannot be destroyed while it is imported.
pub proof fn import_leads_to_its_source(s: SimState, handle: IpcEventHandleId)
    requires
        s.ipc_open_event(handle).1 is Ok,
    ensures
        ({
            let (t, r) = s.ipc_open_event(handle);
            let e = r->Ok_0;
            let src = s.ipc_event_handles[handle];
            &&& s.ipc_event_handles.contains_key(handle)
            &&& !s.events.contains_key(e)
            &&& s.events.contains_key(src)
            &&& t.event_root(e) == src
            &&& t.event_root(src) == src
            &&& t.events[src].recorded_by == s.events[src].recorded_by
            &&& !t.events[e].timing
            &&& t.destroy_event(src) == (t, Err::<(), SimError>(invalid("ipc mapped")))
        }),
{
    let u = s.tick(1);
    let start = if u.next.imported_event == 0 {
        1
    } else {
        u.next.imported_event
    };
    lemma_free_number(u, start, 0);
}

/// Whatever is done to a new simulator, an event with timing is no import. Where it is complete, and
/// the operation that recorded it does not fire it before its end, it fired when that operation
/// ended.
pub proof fn complete_has_stamp(profile: ProfileView, s: SimState, e: EventId)
    requires
        follows(SimState::fresh(profile), s),
        s.next.op < u64::MAX,
        s.require_event_timing(e) is Ok,
        s.event_complete(e),
    ensures
        s.event_root(e) == e,
        s.event_recorded_by(e) is Some,
        ({
            let rec = s.ops[s.event_recorded_by(e)->0];
            &&& !s.programmatic_is(rec.attrs.programmatic_event, e) && !s.completion_is(
                rec.attrs.launch_completion,
                e,
            ) ==> has_stamp(s, e) && rec.done_ns is Some && s.event_done_ns(e)->Ok_0
                == rec.done_ns->0
            &&& has_stamp(s, e) ==> s.event_elapsed_ns(e, e) == Ok::<u64, SimError>(0)
        }),
{
    fresh_is_sound(profile);
    history(SimState::fresh(profile), s);
    reveal(crate::history::shape::imports_untimed);
    assert(s.events.contains_key(e));
    order_always_holds(profile, s, s.event_recorded_by(e)->0);
}

/// The operation that last recorded the event fires no event before its end.
pub open spec fn recorded_at_end(s: SimState, e: EventId) -> bool {
    s.event_recorded_by(e) matches Some(id) ==> !s.programmatic_is(
        s.ops[id].attrs.programmatic_event,
        e,
    ) && !s.completion_is(s.ops[id].attrs.launch_completion, e)
}

/// Whatever is done to a new simulator, complete events with timing that were recorded by themselves
/// have times between them: none from an event to itself, a time in at least one direction between
/// two, in both only where it is none, and times add up.
pub proof fn recorded_events_measure_time(
    profile: ProfileView,
    s: SimState,
    a: EventId,
    b: EventId,
    c: EventId,
)
    requires
        follows(SimState::fresh(profile), s),
        s.next.op < u64::MAX,
        forall|e: EventId|
            e == a || e == b || e == c ==> (#[trigger] s.require_event_timing(e)) is Ok
                && s.event_complete(e) && recorded_at_end(s, e),
    ensures
        s.event_elapsed_ns(a, a) == Ok::<u64, SimError>(0),
        s.event_elapsed_ns(a, b) is Ok || s.event_elapsed_ns(b, a) is Ok,
        s.event_elapsed_ns(a, b) is Ok && s.event_elapsed_ns(b, a) is Ok
            <==> s.event_elapsed_ns(a, b) == Ok::<u64, SimError>(0),
        s.event_elapsed_ns(a, b) is Err ==> s.event_elapsed_ns(a, b)->Err_0 is Invalid,
        s.event_elapsed_ns(a, b) is Ok && s.event_elapsed_ns(b, c) is Ok ==> {
            &&& s.event_elapsed_ns(a, c) is Ok
            &&& s.event_elapsed_ns(a, c)->Ok_0 == s.event_elapsed_ns(a, b)->Ok_0
                + s.event_elapsed_ns(b, c)->Ok_0
        },
{
    assert(s.require_event_timing(a) is Ok);
    assert(s.require_event_timing(b) is Ok);
    assert(s.require_event_timing(c) is Ok);
    complete_has_stamp(profile, s, a);
    complete_has_stamp(profile, s, b);
    complete_has_stamp(profile, s, c);
    elapsed_adds_up(s, a, b, c);
}

} // verus!
