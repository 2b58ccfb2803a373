//! Histories of the operations in `sim::access`.
use vstd::prelude::*;
use crate::history::{follows, time_follows};
use crate::sim::SimState;

verus! {

/// [`Sim::tick`] continues the history.
pub proof fn tick_follows(z: SimState, s0: SimState, ns: u64)
    requires
        follows(z, s0),
    ensures
        follows(z, s0.tick(ns)),
{
    let s = s0;
    time_follows(z, s, ns);
}

} // verus!
