//! The Unknown state: the resting state before the first transition. `Esc`
//! moves to Home; every other event is logged and ignored.

use crate::app::{log_push, Context, ContextV, ModelV};
use crate::stm::events::{Event, KeyCode};
use crate::stm::States;
use vstd::prelude::*;

verus! {

/// Handler of the Unknown state.
#[derive(Debug)]
pub struct UnknownState;

impl UnknownState {
    /// The transition this state requests for an event: Home on `Esc`,
    /// nothing otherwise.
    pub open spec fn spec_request(ev: Event) -> Option<States> {
        match ev {
            Event::Key { key_code: KeyCode::Esc } => Some(States::Home),
            _ => None,
        }
    }

    /// The model after this state handled an event: unrecognized events leave
    /// one line in the diagnostic log.
    pub open spec fn spec_step(m: ModelV, ev: Event) -> ModelV {
        if Self::spec_request(ev) is Some {
            m
        } else {
            log_push(m, "[UnknownS] on_event not match"@)
        }
    }

    /// Handle one event: request Home on `Esc`, log anything else.
    pub fn on_event<C>(&self, event: Event, ctx: &mut Context<C>) -> (r: Option<States>)
        requires
            old(ctx).wf(),
        ensures
            r == Self::spec_request(event),
            final(ctx)@ == (ContextV {
                model: Self::spec_step(old(ctx)@.model, event),
                ..old(ctx)@
            }),
            final(ctx).wf(),
    {
        match event {
            Event::Key { key_code: KeyCode::Esc } => Some(States::Home),
            _ => {
                ctx.debug("[UnknownS] on_event not match".to_owned());
                None
            },
        }
    }

    /// The description the Help overlay shows for this state.
    pub fn help_text(&self) -> (r: &'static str)
        ensures
            r@ == Self::spec_help_text(),
    {
        "\n    ESC   -> back\n    "
    }

    /// The Help overlay text of this state.
    pub open spec fn spec_help_text() -> Seq<char> {
        "\n    ESC   -> back\n    "@
    }
}

} // verus!
