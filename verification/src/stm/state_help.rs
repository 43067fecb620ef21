//! The Help state: a transparent overlay over whichever view was active
//! before. `Esc` requests the single-level undo; every other event is logged.
//! The overlay rendering itself is an orchestrator responsibility, since Help
//! owns no view content of its own.

use crate::app::{log_push, Context, ContextV, ModelV};
use crate::stm::events::{Event, KeyCode};
use crate::stm::States;
use vstd::prelude::*;

verus! {

/// Handler of the Help state.
#[derive(Debug)]
pub struct HelpState;

impl HelpState {
    /// The transition this state requests for an event: the recorded
    /// previous state on `Esc`, nothing otherwise.
    pub open spec fn spec_request(ev: Event) -> Option<States> {
        match ev {
            Event::Key { key_code: KeyCode::Esc } => Some(States::PreviousOne),
            _ => None,
        }
    }

    /// The model after this state handled an event: unrecognized events leave
    /// one line in the diagnostic log.
    pub open spec fn spec_step(m: ModelV, ev: Event) -> ModelV {
        if Self::spec_request(ev) is Some {
            m
        } else {
            log_push(m, "[HelpS] on_event not match"@)
        }
    }

    /// Handle one event: request the previous state on `Esc`, log anything
    /// else.
    pub fn on_event<C>(&self, event: Event, ctx: &mut Context<C>) -> (r: Option<States>)
        requires
            old(ctx).wf(),
        ensures
            r == Self::spec_request(event),
            final(ctx)@ == (ContextV {
                model: Self::spec_step(old(ctx)@.model, event),
                ..old(ctx)@
            }),
            final(ctx).wf(),
    {
        match event {
            Event::Key { key_code: KeyCode::Esc } => Some(States::PreviousOne),
            _ => {
                ctx.debug("[HelpS] on_event not match".to_owned());
                None
            },
        }
    }

    /// The description the Help overlay shows for this state.
    pub fn help_text(&self) -> (r: &'static str)
        ensures
            r@ == Self::spec_help_text(),
    {
        "\n        Help\n        "
    }

    /// The Help overlay text of this state.
    pub open spec fn spec_help_text() -> Seq<char> {
        "\n        Help\n        "@
    }
}

} // verus!
