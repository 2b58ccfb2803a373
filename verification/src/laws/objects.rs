//! User objects.
use vstd::prelude::*;
use crate::ids::{GraphId, UserObjectId};
use crate::ops::GraphUserObjectFlags;
use crate::sim::SimState;
use crate::table::vacant;

verus! {

/// References that were taken and given back leave the object as it was.
pub proof fn retain_then_release(s: SimState, object: UserObjectId, count: u32)
    requires
        s.user_object_retain(object, count).1 is Ok,
        s.user_objects.contains_key(object),
        s.user_objects[object].caller > 0,
    ensures
        ({
            let t = s.user_object_retain(object, count).0;
            let (u, r) = t.user_object_release(object, count);
            &&& t.user_objects[object].caller == s.user_objects[object].caller + count
            &&& r is Ok
            &&& u.user_objects == s.user_objects
            &&& u.user_object_dtors == s.user_object_dtors
        }),
{
    let t = s.user_object_retain(object, count).0;
    let u = t.user_object_release(object, count).0;
    assert(u.user_objects[object] == s.user_objects[object]);
    assert(u.user_objects =~= s.user_objects);
}

/// The destructor runs once, when the last reference goes.
pub proof fn last_release_destroys(s: SimState, object: UserObjectId, count: u32)
    requires
        s.user_object_release(object, count).1 is Ok,
        s.user_objects.contains_key(object),
    ensures
        ({
            let t = s.user_object_release(object, count).0;
            let u = s.user_objects[object];
            if u.caller == count && vacant(u.graphs.dom()) {
                &&& !t.user_objects.contains_key(object)
                &&& t.user_object_dtors == s.user_object_dtors.push((object, u.destroy_fn))
            } else {
                &&& t.user_objects.contains_key(object)
                &&& t.user_object_dtors == s.user_object_dtors
            }
        }),
{
}

/// Handing a reference over to a graph keeps the number of references of caller and graph.
pub proof fn moved_reference(s: SimState, graph: GraphId, object: UserObjectId, count: u32)
    requires
        s.graph_retain_user_object(graph, object, count, GraphUserObjectFlags::MOVE).1 is Ok,
    ensures
        ({
            let t = s.graph_retain_user_object(
                graph,
                object,
                count,
                GraphUserObjectFlags::MOVE,
            ).0;
            &&& t.user_objects[object].caller + 1 == s.user_objects[object].caller
            &&& t.held_by(graph, object) == s.held_by(graph, object) + 1
        }),
{
    reveal(SimState::add_graph_refs);
    assert(1u32 & !1u32 == 0) by (bit_vector);
    assert(1u32 & 1u32 != 0) by (bit_vector);
}

} // verus!
