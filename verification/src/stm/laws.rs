//! Laws of the navigation engine, stated over the same specification
//! functions the orchestrator's contracts use.

use crate::stm::events::{Event, KeyCode};
use crate::stm::stm_main::{step_nav, step_target, switch_nav};
use crate::stm::States;
use vstd::prelude::*;

verus! {

/// The key-press event for one key code.
pub open spec fn key_event(k: KeyCode) -> Event {
    Event::Key { key_code: k }
}

/// Law: a `PreviousOne` transition with no recorded previous state leaves
/// the current state unchanged.
pub proof fn lemma_previous_one_no_record(cur: States)
    ensures
        switch_nav(cur, None, States::PreviousOne) == (cur, None::<States>),
{
}

/// Law: two consecutive `PreviousOne` transitions with no forward transition
/// between them undo only once; the second changes nothing, because the
/// first clears the single undo slot.
pub proof fn lemma_previous_one_twice(cur: States, prev: States)
    ensures
        ({
            let (c1, p1) = switch_nav(cur, Some(prev), States::PreviousOne);
            let (c2, p2) = switch_nav(c1, p1, States::PreviousOne);
            &&& c1 == prev
            &&& p1 == None::<States>
            &&& c2 == c1
            &&& p2 == p1
        }),
{
}

/// Law: from Unknown, Home or Search, the key `D` always reaches Debug,
/// whatever the view's own handler would do, and `Esc` from Debug then
/// returns to exactly the state that was active immediately before Debug was
/// entered.
pub proof fn lemma_debug_round_trip(cur: States, prev: Option<States>)
    requires
        cur == States::Unknown || cur == States::Home || cur == States::Search,
    ensures
        ({
            let (c1, p1) = step_nav(cur, prev, key_event(KeyCode::Char('D')));
            let (c2, p2) = step_nav(c1, p1, key_event(KeyCode::Esc));
            &&& c1 == States::Debug
            &&& p1 == Some(cur)
            &&& c2 == cur
            &&& p2 == None::<States>
        }),
{
}

/// Law: the global bindings pre-empt per-state dispatch: whenever `D` is
/// pressed in Unknown, Home or Search, the resolved transition target is
/// Debug, never what the view requests.
pub proof fn lemma_global_debug_overrides(cur: States)
    requires
        cur == States::Unknown || cur == States::Home || cur == States::Search,
    ensures
        step_target(cur, key_event(KeyCode::Char('D'))) == Some(States::Debug),
{
}

} // verus!
