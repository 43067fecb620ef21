//! The Debug state: shows the append-only diagnostic log. `Esc` requests the
//! single-level undo; the arrow keys navigate the log; nothing here touches
//! the network.

use crate::app::{Context, ContextV, ModelV};
use crate::list::{spec_next, spec_previous, ListV};
use crate::stm::events::{Event, KeyCode};
use crate::stm::States;
use vstd::prelude::*;

verus! {

/// Handler of the Debug state.
#[derive(Debug)]
pub struct DebugState;

impl DebugState {
    /// The transition this state requests for an event: the recorded
    /// previous state on `Esc`, nothing otherwise.
    pub open spec fn spec_request(ev: Event) -> Option<States> {
        match ev {
            Event::Key { key_code: KeyCode::Esc } => Some(States::PreviousOne),
            _ => None,
        }
    }

    /// The model after this state handled an event: `Down`/`Up` move the log
    /// cursor, `Left` clears it, everything else changes nothing (and is not
    /// logged, to keep the log readable while it is shown).
    pub open spec fn spec_step(m: ModelV, ev: Event) -> ModelV {
        match ev {
            Event::Key { key_code: KeyCode::Down } => ModelV {
                debug_messages: ListV {
                    selected: spec_next(
                        m.debug_messages.selected,
                        m.debug_messages.items.len() as int,
                    ),
                    ..m.debug_messages
                },
                ..m
            },
            Event::Key { key_code: KeyCode::Up } => ModelV {
                debug_messages: ListV {
                    selected: spec_previous(
                        m.debug_messages.selected,
                        m.debug_messages.items.len() as int,
                    ),
                    ..m.debug_messages
                },
                ..m
            },
            Event::Key { key_code: KeyCode::Left } => ModelV {
                debug_messages: ListV { selected: None, ..m.debug_messages },
                ..m
            },
            _ => m,
        }
    }

    /// Handle one event: navigate the log, or request the previous state on
    /// `Esc`.
    pub fn on_event<C>(&self, event: Event, ctx: &mut Context<C>) -> (r: Option<States>)
        requires
            old(ctx).wf(),
        ensures
            r == Self::spec_request(event),
            final(ctx)@ == (ContextV {
                model: Self::spec_step(old(ctx)@.model, event),
                ..old(ctx)@
            }),
            final(ctx).wf(),
    {
        let r = match event {
            Event::Key { key_code: KeyCode::Esc } => Some(States::PreviousOne),
            Event::Key { key_code: KeyCode::Down } => {
                ctx.model.debug_messages_stateful.next();
                None
            },
            Event::Key { key_code: KeyCode::Up } => {
                ctx.model.debug_messages_stateful.previous();
                None
            },
            Event::Key { key_code: KeyCode::Left } => {
                ctx.model.debug_messages_stateful.unselect();
                None
            },
            _ => None,
        };
        proof {
            assert(ctx@ =~~= (ContextV {
                model: Self::spec_step(old(ctx)@.model, event),
                ..old(ctx)@
            }));
        }
        r
    }

    /// The description the Help overlay shows for this state.
    pub fn help_text(&self) -> (r: &'static str)
        ensures
            r@ == Self::spec_help_text(),
    {
        "\n        Help\n        "
    }

    /// The Help overlay text of this state.
    pub open spec fn spec_help_text() -> Seq<char> {
        "\n        Help\n        "@
    }
}

} // verus!
