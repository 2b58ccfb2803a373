//! Histories of the operations in `sim::objects`.
use vstd::prelude::*;
use crate::history::follows;
use crate::history::access::tick_follows;
use crate::ids::{GraphId, UserObjectId};
use crate::ops::{GraphUserObjectFlags, UserObjectFlags};
use crate::sim::SimState;
use crate::state::{NextIds, UserObjectView};
use crate::table::vacant;

verus! {

/// [`Sim::user_object_create`] continues the history.
pub proof fn user_object_create_follows(
    z: SimState,
    s0: SimState,
    destroy_fn: u64,
    initial_refcount: u32,
    flags: u32,
)
    requires
        follows(z, s0),
    ensures
        follows(z, s0.user_object_create(destroy_fn, initial_refcount, flags).0),
{
    let s = s0;
    match s.fail_if_capturing("cannot capture user object") {
        Err(e) => {},
        Ok(_v) => {
            if !(flags != UserObjectFlags::NO_DESTRUCTOR_SYNC) {
                if !(initial_refcount == 0) {
                    let id = UserObjectId(s.next.user_object);
                    assert(
                        follows(
                            z,
                            SimState {
                                next: NextIds {
                                    user_object: s.next.user_object.saturating_add(1),
                                    ..s.next
                                },
                                ..s
                            },
                        )
                    ) by {
                        reveal(follows);
                    }
                    let s = SimState {
                        next: NextIds {
                            user_object: s.next.user_object.saturating_add(1),
                            ..s.next
                        },
                        ..s
                    };
                    assert(
                        follows(
                            z,
                            SimState {
                                user_objects: s.user_objects.insert(
                                    id,
                                    UserObjectView {
                                        destroy_fn,
                                        caller: initial_refcount,
                                        graphs: Map::empty(),
                                    },
                                ),
                                ..s
                            },
                        )
                    ) by {
                        reveal(follows);
                    }
                    let s = SimState {
                        user_objects: s.user_objects.insert(
                            id,
                            UserObjectView {
                                destroy_fn,
                                caller: initial_refcount,
                                graphs: Map::empty(),
                            },
                        ),
                        ..s
                    };
                    tick_follows(z, s, 1);
                }
            }
        },
    }
}

/// [`Sim::user_object_retain`] continues the history.
pub proof fn user_object_retain_follows(z: SimState, s0: SimState, object: UserObjectId, count: u32)
    requires
        follows(z, s0),
    ensures
        follows(z, s0.user_object_retain(object, count).0),
{
    let s = s0;
    match s.fail_if_capturing("cannot capture user object") {
        Err(e) => {},
        Ok(_v) => {
            if !(count == 0) {
                match s.user_object(object) {
                    Err(e) => {},
                    Ok(was) => match was.caller.checked_add(count) {
                        Some(n) => {
                            let caller = n;
                            match s.user_object(object) {
                                Err(e) => {},
                                Ok(obj) => {
                                    let obj = UserObjectView { caller: caller, ..obj };
                                    assert(
                                        follows(
                                            z,
                                            SimState {
                                                user_objects: s.user_objects.insert(object, obj),
                                                ..s
                                            },
                                        )
                                    ) by {
                                        reveal(follows);
                                    }
                                    let s = SimState {
                                        user_objects: s.user_objects.insert(object, obj),
                                        ..s
                                    };
                                    tick_follows(z, s, 1);
                                },
                            }
                        },
                        None => {},
                    },
                }
            }
        },
    }
}

/// [`Sim::user_object_release`] continues the history.
pub proof fn user_object_release_follows(
    z: SimState,
    s0: SimState,
    object: UserObjectId,
    count: u32,
)
    requires
        follows(z, s0),
    ensures
        follows(z, s0.user_object_release(object, count).0),
{
    let s = s0;
    match s.fail_if_capturing("cannot capture user object") {
        Err(e) => {},
        Ok(_v) => {
            if !(count == 0) {
                match s.user_object(object) {
                    Err(e) => {},
                    Ok(was) => {
                        if !(count > was.caller) {
                            let caller = was.caller.saturating_sub(count);
                            match s.user_object(object) {
                                Err(e) => {},
                                Ok(obj) => {
                                    let obj = UserObjectView { caller: caller, ..obj };
                                    assert(
                                        follows(
                                            z,
                                            SimState {
                                                user_objects: s.user_objects.insert(object, obj),
                                                ..s
                                            },
                                        )
                                    ) by {
                                        reveal(follows);
                                    }
                                    let s = SimState {
                                        user_objects: s.user_objects.insert(object, obj),
                                        ..s
                                    };
                                    maybe_destroy_user_object_follows(z, s, object);
                                    let s = s.maybe_destroy_user_object(object);
                                    tick_follows(z, s, 1);
                                },
                            }
                        }
                    },
                }
            }
        },
    }
}

/// [`Sim::take_caller_ref`] continues the history.
pub proof fn take_caller_ref_follows(z: SimState, s0: SimState, object: UserObjectId)
    requires
        follows(z, s0),
    ensures
        follows(z, s0.take_caller_ref(object).0),
{
    let s = s0;
    match s.user_object(object) {
        Err(e) => {},
        Ok(obj) => {
            if !(obj.caller == 0) {
                let caller = obj.caller.saturating_sub(1);
                match s.user_object(object) {
                    Err(e) => {},
                    Ok(o) => {
                        let o = UserObjectView { caller: caller, ..o };
                        assert(
                            follows(
                                z,
                                SimState { user_objects: s.user_objects.insert(object, o), ..s },
                            )
                        ) by {
                            reveal(follows);
                        }
                    },
                }
            }
        },
    }
}

/// [`Sim::graph_retain_user_object`] continues the history.
pub proof fn graph_retain_user_object_follows(
    z: SimState,
    s0: SimState,
    graph: GraphId,
    object: UserObjectId,
    count: u32,
    flags: u32,
)
    requires
        follows(z, s0),
    ensures
        follows(z, s0.graph_retain_user_object(graph, object, count, flags).0),
{
    let s = s0;
    match s.fail_if_capturing("cannot capture user object") {
        Err(e) => {},
        Ok(_v) => match s.require_user_object_graph(graph) {
            Err(e) => {},
            Ok(_v) => {
                if !(flags&!GraphUserObjectFlags::MOVE != 0) {
                    if flags&GraphUserObjectFlags::MOVE != 0 {
                        take_caller_ref_follows(z, s, object);
                        match s.take_caller_ref(object) {
                            (s, Err(e)) => {},
                            (s, Ok(_v)) => {
                                add_graph_refs_follows(z, s, graph, object, 1);
                            },
                        }
                    } else if !(count == 0) {
                        add_graph_refs_follows(z, s, graph, object, count);
                    }
                }
            },
        },
    }
}

/// [`Sim::add_graph_refs`] continues the history.
pub proof fn add_graph_refs_follows(
    z: SimState,
    s0: SimState,
    graph: GraphId,
    object: UserObjectId,
    count: u32,
)
    requires
        follows(z, s0),
    ensures
        follows(z, s0.add_graph_refs(graph, object, count).0),
{
    reveal(SimState::add_graph_refs);
    let s = s0;
    match s.user_object(object) {
        Err(e) => {},
        Ok(_known) => match s.held_by(graph, object).checked_add(count) {
            Some(n) => {
                let next = n;
                match s.user_object(object) {
                    Err(e) => {},
                    Ok(obj) => {
                        let obj = UserObjectView { graphs: obj.graphs.insert(graph, next), ..obj };
                        assert(
                            follows(
                                z,
                                SimState { user_objects: s.user_objects.insert(object, obj), ..s },
                            )
                        ) by {
                            reveal(follows);
                        }
                        let s = SimState { user_objects: s.user_objects.insert(object, obj), ..s };
                        tick_follows(z, s, 1);
                    },
                }
            },
            None => {},
        },
    }
}

/// [`Sim::graph_release_user_object`] continues the history.
pub proof fn graph_release_user_object_follows(
    z: SimState,
    s0: SimState,
    graph: GraphId,
    object: UserObjectId,
    count: u32,
)
    requires
        follows(z, s0),
    ensures
        follows(z, s0.graph_release_user_object(graph, object, count).0),
{
    let s = s0;
    match s.fail_if_capturing("cannot capture user object") {
        Err(e) => {},
        Ok(_v) => match s.require_user_object_graph(graph) {
            Err(e) => {},
            Ok(_v) => {
                if !(count == 0) {
                    graph_release_user_object_inner_follows(z, s, graph, object, count);
                    match s.graph_release_user_object_inner(graph, object, count) {
                        (s, Err(e)) => {},
                        (s, Ok(_v)) => {
                            tick_follows(z, s, 1);
                        },
                    }
                }
            },
        },
    }
}

/// [`Sim::graph_release_user_object_inner`] continues the history.
pub proof fn graph_release_user_object_inner_follows(
    z: SimState,
    s0: SimState,
    graph: GraphId,
    object: UserObjectId,
    count: u32,
)
    requires
        follows(z, s0),
    ensures
        follows(z, s0.graph_release_user_object_inner(graph, object, count).0),
{
    reveal(SimState::graph_release_user_object_inner);
    let s = s0;
    match s.user_object(object) {
        Err(e) => {},
        Ok(_known) => {
            let held = s.held_by(graph, object);
            if !(count > held) {
                let next = held.saturating_sub(count);
                match s.user_object(object) {
                    Err(e) => {},
                    Ok(obj) => {
                        if next == 0 {
                            let obj = UserObjectView { graphs: obj.graphs.remove(graph), ..obj };
                            assert(
                                follows(
                                    z,
                                    SimState {
                                        user_objects: s.user_objects.insert(object, obj),
                                        ..s
                                    },
                                )
                            ) by {
                                reveal(follows);
                            }
                        } else {
                            let obj = UserObjectView {
                                graphs: obj.graphs.insert(graph, next),
                                ..obj
                            };
                            assert(
                                follows(
                                    z,
                                    SimState {
                                        user_objects: s.user_objects.insert(object, obj),
                                        ..s
                                    },
                                )
                            ) by {
                                reveal(follows);
                            }
                        }
                        let (obj, s) = if next == 0 {
                            let obj = UserObjectView { graphs: obj.graphs.remove(graph), ..obj };
                            let s = SimState {
                                user_objects: s.user_objects.insert(object, obj),
                                ..s
                            };
                            (obj, s)
                        } else {
                            let obj = UserObjectView {
                                graphs: obj.graphs.insert(graph, next),
                                ..obj
                            };
                            let s = SimState {
                                user_objects: s.user_objects.insert(object, obj),
                                ..s
                            };
                            (obj, s)
                        };
                        maybe_destroy_user_object_follows(z, s, object);
                    },
                }
            }
        },
    }
}

/// [`Sim::release_user_objects_for_graph`] continues the history.
pub proof fn release_user_objects_for_graph_follows(z: SimState, s0: SimState, graph: GraphId)
    requires
        follows(z, s0),
    ensures
        follows(z, s0.release_user_objects_for_graph(graph)),
{
    let s = s0;
    let ids = s.objects_of(graph);
    release_user_objects_for_graph_from_follows(z, s, graph, ids, 0);
}

/// [`Sim::release_user_objects_for_graph`] continues the history, from position `i` on.
pub proof fn release_user_objects_for_graph_from_follows(
    z: SimState,
    s0: SimState,
    graph: GraphId,
    ids: Seq<(UserObjectId, u32)>,
    i: int,
)
    requires
        follows(z, s0),
    ensures
        follows(z, s0.release_user_objects_for_graph_from(graph, ids, i)),
    decreases ids.len() - i,
{
    let s = s0;
    if 0 <= i < ids.len() {
        graph_release_user_object_inner_follows(z, s, graph, ids[i].0, ids[i].1);
        let s = s.graph_release_user_object_inner(graph, ids[i].0, ids[i].1).0;
        release_user_objects_for_graph_from_follows(z, s, graph, ids, i + 1);
    }
}

/// [`Sim::maybe_destroy_user_object`] continues the history.
pub proof fn maybe_destroy_user_object_follows(z: SimState, s0: SimState, object: UserObjectId)
    requires
        follows(z, s0),
    ensures
        follows(z, s0.maybe_destroy_user_object(object)),
{
    let s = s0;
    match s.user_objects.get(object) {
        Some(obj) => {
            if !(obj.caller != 0 || !vacant(obj.graphs.dom())) {
                let destroy_fn = obj.destroy_fn;
                assert(
                    follows(z, SimState { user_objects: s.user_objects.remove(object), ..s })
                ) by {
                    reveal(follows);
                }
                let s = SimState { user_objects: s.user_objects.remove(object), ..s };
                assert(
                    follows(
                        z,
                        SimState {
                            user_object_dtors: s.user_object_dtors.push((object, destroy_fn)),
                            ..s
                        },
                    )
                ) by {
                    reveal(follows);
                }
            }
        },
        _ => {},
    }
}

} // verus!
