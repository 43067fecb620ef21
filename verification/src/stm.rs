//! The finite-state navigation engine: the closed set of view states, one
//! handler module per state, the orchestrator that owns transitions, one-time
//! entry hooks and single-level undo, and the laws the engine obeys.

use vstd::prelude::*;

pub mod events;
pub mod laws;
pub mod state_debug;
pub mod state_help;
pub mod state_home;
pub mod state_search;
pub mod state_unknown;
pub mod stm_main;

verus! {

/// The view states of the dashboard. `PreviousOne` is a transition request
/// (undo one level), never a resting value of the current state; `NextOne` is
/// reserved and unused.
#[derive(Debug, Clone, Copy, PartialEq, Eq, Structural)]
pub enum States {
    Unknown,
    PreviousOne,
    NextOne,
    Debug,
    Home,
    Search,
    Help,
}

} // verus!
