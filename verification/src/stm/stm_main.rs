//! The orchestrator: owns the current and previous view state, applies the
//! global key bindings before per-state dispatch, forwards every other event
//! to the active view, runs one-time entry hooks on transitions into Home and
//! Search, and decides what the renderer should draw.

use crate::app::{log_push, Context, ContextV, ModelV};
use crate::kraken::client::{AssetEntryV, AssetPairEntryV, RestAPI};
use crate::stm::events::{Event, KeyCode};
use crate::stm::state_debug::DebugState;
use crate::stm::state_help::HelpState;
use crate::stm::state_home::HomeState;
use crate::stm::state_search::{ActiveColumn, SearchState};
use crate::stm::state_unknown::UnknownState;
use crate::stm::States;
use vstd::prelude::*;

verus! {

/// The main state machine: the current and previous state (a single undo
/// slot, not a stack), one owned handler per view variant, and the reserved
/// `next_st`/`trace` fields, which nothing ever reaches.
pub struct MainStm<'a> {
    pub name: &'a str,
    pub current_st: States,
    pub previous_st: Option<States>,
    pub next_st: Option<States>,
    pub unknow_st: UnknownState,
    pub debug_st: DebugState,
    pub help_st: HelpState,
    pub home_st: HomeState,
    pub search_st: SearchState,
    pub trace: bool,
}

/// Ghost image of the orchestrator: navigation slots, the two entry flags,
/// and the Search view's active column.
#[verifier::ext_equal]
pub ghost struct StmV {
    pub name: Seq<char>,
    pub current: States,
    pub previous: Option<States>,
    pub next: Option<States>,
    pub home_first: bool,
    pub search_first: bool,
    pub col: ActiveColumn,
    pub trace: bool,
}

impl<'a> View for MainStm<'a> {
    type V = StmV;

    open spec fn view(&self) -> StmV {
        StmV {
            name: self.name@,
            current: self.current_st,
            previous: self.previous_st,
            next: self.next_st,
            home_first: self.home_st.on_enter_first,
            search_first: self.search_st.on_enter_first,
            col: self.search_st.active_column,
            trace: self.trace,
        }
    }
}

/// The navigation slots after a transition to `target`: `PreviousOne`
/// restores and clears the recorded previous state (a no-op when none is
/// recorded); any other target becomes current and records the old current.
pub open spec fn switch_nav(cur: States, prev: Option<States>, target: States) -> (
    States,
    Option<States>,
) {
    if target == States::PreviousOne {
        match prev {
            Some(p) => (p, None),
            None => (cur, prev),
        }
    } else {
        (target, Some(cur))
    }
}

/// The global key bindings, evaluated before per-state dispatch and
/// overriding it: `D` reaches Debug from Unknown, Home and Search; `?`
/// reaches Help from Home and Search.
pub open spec fn global_override(cur: States, ev: Event) -> Option<States> {
    match ev {
        Event::Key { key_code: KeyCode::Char(c) } => if c == 'D' && (cur == States::Unknown || cur
            == States::Home || cur == States::Search) {
            Some(States::Debug)
        } else if c == '?' && (cur == States::Home || cur == States::Search) {
            Some(States::Help)
        } else {
            None
        },
        _ => None,
    }
}

/// The transition the active view requests for an event.
pub open spec fn view_request(cur: States, ev: Event) -> Option<States> {
    match cur {
        States::Unknown => UnknownState::spec_request(ev),
        States::Debug => DebugState::spec_request(ev),
        States::Home => HomeState::spec_request(ev),
        States::Search => SearchState::spec_request(ev),
        States::Help => HelpState::spec_request(ev),
        _ => None,
    }
}

/// The transition one event causes, if any: a global binding when one
/// applies, else whatever the active view requests.
pub open spec fn step_target(cur: States, ev: Event) -> Option<States> {
    match global_override(cur, ev) {
        Some(t) => Some(t),
        None => view_request(cur, ev),
    }
}

/// The navigation slots after one event was dispatched.
pub open spec fn step_nav(cur: States, prev: Option<States>, ev: Event) -> (
    States,
    Option<States>,
) {
    match step_target(cur, ev) {
        Some(t) => switch_nav(cur, prev, t),
        None => (cur, prev),
    }
}

/// The model and active column after one event was dispatched, before any
/// entry hook ran: outside Debug, dispatch first logs the event; a global
/// binding changes nothing else; otherwise the active view handles the
/// event.
pub open spec fn dispatch_model(m: ModelV, cur: States, col: ActiveColumn, ev: Event) -> (
    ModelV,
    ActiveColumn,
) {
    let m0 = if cur != States::Debug {
        log_push(m, "[STM] on_event"@)
    } else {
        m
    };
    if global_override(cur, ev) is Some {
        (m0, col)
    } else {
        match cur {
            States::Unknown => (UnknownState::spec_step(m0, ev), col),
            States::Debug => (DebugState::spec_step(m0, ev), col),
            States::Home => (HomeState::spec_step(m0, ev), col),
            States::Search => SearchState::spec_step(m0, col, ev),
            States::Help => (HelpState::spec_step(m0, ev), col),
            _ => (log_push(m0, "[STM] on_event not match"@), col),
        }
    }
}

/// What the renderer should draw for one frame.
#[derive(Debug)]
pub enum RenderPlan {
    /// The current state owns no view content; a line was logged instead.
    Nothing,
    /// Draw this view's content directly.
    View(States),
    /// Help is active: draw the base view's content first when one is
    /// recorded, then overlay a centered popup holding the given text.
    HelpOverlay { base: Option<States>, text: &'static str },
}

impl MainStm<'_> {
    /// A fresh state machine resting in Unknown, with nothing recorded and
    /// both entry hooks still pending.
    pub fn new(name: &str, trace: bool) -> (stm: MainStm)
        ensures
            stm@ == (StmV {
                name: name@,
                current: States::Unknown,
                previous: None,
                next: None,
                home_first: true,
                search_first: true,
                col: ActiveColumn::Assets,
                trace: trace,
            }),
    {
        let stm = MainStm {
            name,
            current_st: States::Unknown,
            previous_st: None,
            next_st: None,
            unknow_st: UnknownState,
            debug_st: DebugState,
            help_st: HelpState,
            home_st: HomeState::default(),
            search_st: SearchState::default(),
            trace,
        };
        proof {
            assert(stm@ =~~= (StmV {
                name: name@,
                current: States::Unknown,
                previous: None,
                next: None,
                home_first: true,
                search_first: true,
                col: ActiveColumn::Assets,
                trace: trace,
            }));
        }
        stm
    }

    /// Transition to `to_state`: `PreviousOne` undoes one level (and only
    /// one); any other target becomes current, and a first-ever transition
    /// into Home or Search runs that view's entry hook exactly once.
    pub fn switch_state<C: RestAPI>(&mut self, to_state: States, ctx: &mut Context<C>)
        requires
            old(ctx).wf(),
        ensures
            (final(self)@.current, final(self)@.previous) == switch_nav(
                old(self)@.current,
                old(self)@.previous,
                to_state,
            ),
            final(self)@.name == old(self)@.name,
            final(self)@.next == old(self)@.next,
            final(self)@.trace == old(self)@.trace,
            final(self)@.col == old(self)@.col,
            final(self)@.home_first == (old(self)@.home_first && to_state != States::Home),
            final(self)@.search_first == (old(self)@.search_first && to_state != States::Search),
            final(ctx)@.app_id == old(ctx)@.app_id,
            final(ctx)@.app_version == old(ctx)@.app_version,
            if to_state == States::Home && old(self)@.home_first {
                exists|conn_ok: bool, fetched: Option<Seq<AssetEntryV>>|
                    final(ctx)@.model == #[trigger] HomeState::spec_enter(
                        old(ctx)@.model,
                        conn_ok,
                        fetched,
                    )
            } else if to_state == States::Search && old(self)@.search_first {
                exists|fetched: Option<Seq<AssetPairEntryV>>|
                    final(ctx)@.model == #[trigger] SearchState::spec_enter(
                        old(ctx)@.model,
                        fetched,
                    )
            } else {
                final(ctx)@.model == old(ctx)@.model
            },
            final(ctx).wf(),
    {
        if matches!(to_state, States::PreviousOne) {
            if let Some(prev_state) = self.previous_st {
                self.current_st = prev_state;
                self.previous_st = None;
            }
        } else {
            self.previous_st = Some(self.current_st);
            self.current_st = to_state;
            match self.current_st {
                States::Home => {
                    if self.home_st.on_enter_first {
                        self.home_st.on_enter_once(ctx);
                    }
                },
                States::Search => {
                    if self.search_st.on_enter_first {
                        self.search_st.on_enter_once(ctx);
                    }
                },
                _ => {},
            }
        }
    }

    /// Dispatch one event: log it outside Debug, apply the global bindings
    /// first, else forward to the active view and follow any transition it
    /// requests.
    pub fn on_event<C: RestAPI>(&mut self, event: Event, ctx: &mut Context<C>)
        requires
            old(ctx).wf(),
        ensures
            ({
                let s1 = old(self)@;
                let s2 = final(self)@;
                let target = step_target(s1.current, event);
                let stepped = dispatch_model(old(ctx)@.model, s1.current, s1.col, event);
                &&& (s2.current, s2.previous) == step_nav(s1.current, s1.previous, event)
                &&& s2.name == s1.name
                &&& s2.next == s1.next
                &&& s2.trace == s1.trace
                &&& s2.col == stepped.1
                &&& s2.home_first == (s1.home_first && target != Some(States::Home))
                &&& s2.search_first == (s1.search_first && target != Some(States::Search))
                &&& if target == Some(States::Home) && s1.home_first {
                    exists|conn_ok: bool, fetched: Option<Seq<AssetEntryV>>|
                        final(ctx)@.model == #[trigger] HomeState::spec_enter(
                            stepped.0,
                            conn_ok,
                            fetched,
                        )
                } else if target == Some(States::Search) && s1.search_first {
                    exists|fetched: Option<Seq<AssetPairEntryV>>|
                        final(ctx)@.model == #[trigger] SearchState::spec_enter(
                            stepped.0,
                            fetched,
                        )
                } else {
                    final(ctx)@.model == stepped.0
                }
            }),
            final(ctx)@.app_id == old(ctx)@.app_id,
            final(ctx)@.app_version == old(ctx)@.app_version,
            final(ctx).wf(),
    {
        if !matches!(self.current_st, States::Debug) {
            ctx.debug("[STM] on_event".to_owned());
        }
        let is_d = matches!(event, Event::Key { key_code: KeyCode::Char('D') });
        let is_q = matches!(event, Event::Key { key_code: KeyCode::Char('?') });
        let in_d_states = matches!(
            self.current_st,
            States::Unknown | States::Home | States::Search
        );
        let in_q_states = matches!(self.current_st, States::Home | States::Search);
        if is_d && in_d_states {
            self.switch_state(States::Debug, ctx);
        } else if is_q && in_q_states {
            self.switch_state(States::Help, ctx);
        } else {
            match self.current_st {
                States::Unknown => {
                    let r = self.unknow_st.on_event(event, ctx);
                    let ghost m_mid = ctx@.model;
                    let ghost home_flag = self.home_st.on_enter_first;
                    if let Some(to_state) = r {
                        self.switch_state(to_state, ctx);
                        proof {
                            let s1 = old(self)@;
                            let stepped = dispatch_model(
                                old(ctx)@.model,
                                s1.current,
                                s1.col,
                                event,
                            );
                            if to_state == States::Home && home_flag {
                                let (c, f) = choose|c: bool, f: Option<Seq<AssetEntryV>>|
                                    ctx@.model == #[trigger] HomeState::spec_enter(m_mid, c, f);
                                assert(m_mid == stepped.0);
                                assert(ctx@.model == HomeState::spec_enter(stepped.0, c, f));
                            }
                        }
                    }
                },
                States::Debug => {
                    let r = self.debug_st.on_event(event, ctx);
                    if let Some(to_state) = r {
                        self.switch_state(to_state, ctx);
                    }
                },
                States::Home => {
                    let r = self.home_st.on_event(event, ctx);
                    let ghost m_mid = ctx@.model;
                    let ghost search_flag = self.search_st.on_enter_first;
                    if let Some(to_state) = r {
                        self.switch_state(to_state, ctx);
                        proof {
                            let s1 = old(self)@;
                            let stepped = dispatch_model(
                                old(ctx)@.model,
                                s1.current,
                                s1.col,
                                event,
                            );
                            if to_state == States::Search && search_flag {
                                let f = choose|f: Option<Seq<AssetPairEntryV>>|
                                    ctx@.model == #[trigger] SearchState::spec_enter(m_mid, f);
                                assert(m_mid == stepped.0);
                                assert(ctx@.model == SearchState::spec_enter(stepped.0, f));
                            }
                        }
                    }
                },
                States::Search => {
                    let r = self.search_st.on_event(event, ctx);
                    let ghost m_mid = ctx@.model;
                    let ghost home_flag = self.home_st.on_enter_first;
                    if let Some(to_state) = r {
                        self.switch_state(to_state, ctx);
                        proof {
                            let s1 = old(self)@;
                            let stepped = dispatch_model(
                                old(ctx)@.model,
                                s1.current,
                                s1.col,
                                event,
                            );
                            if to_state == States::Home && home_flag {
                                let (c, f) = choose|c: bool, f: Option<Seq<AssetEntryV>>|
                                    ctx@.model == #[trigger] HomeState::spec_enter(m_mid, c, f);
                                assert(m_mid == stepped.0);
                                assert(ctx@.model == HomeState::spec_enter(stepped.0, c, f));
                            }
                        }
                    }
                },
                States::Help => {
                    let r = self.help_st.on_event(event, ctx);
                    if let Some(to_state) = r {
                        self.switch_state(to_state, ctx);
                    }
                },
                _ => {
                    ctx.debug("[STM] on_event not match".to_owned());
                },
            }
        }
    }

    /// Decide what the renderer should draw: the current view directly, or,
    /// while Help is active, the previous view's content underneath a popup
    /// holding that view's help text. Help is a transparent decorator and
    /// never owns primary content.
    pub fn render_plan<C>(&self, ctx: &mut Context<C>) -> (plan: RenderPlan)
        requires
            old(ctx).wf(),
        ensures
            final(ctx)@.app_id == old(ctx)@.app_id,
            final(ctx)@.app_version == old(ctx)@.app_version,
            final(ctx).wf(),
            ({
                let cur = self@.current;
                let prev = self@.previous;
                if cur == States::Help {
                    match prev {
                        Some(States::Unknown) => {
                            &&& plan matches RenderPlan::HelpOverlay { base, text }
                            &&& base == Some(States::Unknown)
                            &&& text@ == UnknownState::spec_help_text()
                            &&& final(ctx)@.model == old(ctx)@.model
                        },
                        Some(States::Debug) => {
                            &&& plan matches RenderPlan::HelpOverlay { base, text }
                            &&& base == Some(States::Debug)
                            &&& text@ == DebugState::spec_help_text()
                            &&& final(ctx)@.model == old(ctx)@.model
                        },
                        Some(States::Home) => {
                            &&& plan matches RenderPlan::HelpOverlay { base, text }
                            &&& base == Some(States::Home)
                            &&& text@ == HomeState::spec_help_text()
                            &&& final(ctx)@.model == old(ctx)@.model
                        },
                        Some(States::Search) => {
                            &&& plan matches RenderPlan::HelpOverlay { base, text }
                            &&& base == Some(States::Search)
                            &&& text@ == SearchState::spec_help_text()
                            &&& final(ctx)@.model == old(ctx)@.model
                        },
                        _ => {
                            &&& plan matches RenderPlan::HelpOverlay { base, text }
                            &&& base is None
                            &&& text@ == "None"@
                            &&& final(ctx)@.model == log_push(
                                old(ctx)@.model,
                                "[STM] draw not match"@,
                            )
                        },
                    }
                } else {
                    match cur {
                        States::Unknown | States::Debug | States::Home | States::Search => {
                            &&& plan == RenderPlan::View(cur)
                            &&& final(ctx)@.model == old(ctx)@.model
                        },
                        _ => {
                            &&& plan matches RenderPlan::Nothing
                            &&& final(ctx)@.model == log_push(
                                old(ctx)@.model,
                                "[STM] draw not match"@,
                            )
                        },
                    }
                }
            }),
    {
        if matches!(self.current_st, States::Help) {
            match self.previous_st {
                Some(States::Unknown) => RenderPlan::HelpOverlay {
                    base: Some(States::Unknown),
                    text: self.unknow_st.help_text(),
                },
                Some(States::Debug) => RenderPlan::HelpOverlay {
                    base: Some(States::Debug),
                    text: self.debug_st.help_text(),
                },
                Some(States::Home) => RenderPlan::HelpOverlay {
                    base: Some(States::Home),
                    text: self.home_st.help_text(),
                },
                Some(States::Search) => RenderPlan::HelpOverlay {
                    base: Some(States::Search),
                    text: self.search_st.help_text(),
                },
                _ => {
                    ctx.debug("[STM] draw not match".to_owned());
                    RenderPlan::HelpOverlay { base: None, text: "None" }
                },
            }
        } else {
            match self.current_st {
                States::Unknown => RenderPlan::View(States::Unknown),
                States::Debug => RenderPlan::View(States::Debug),
                States::Home => RenderPlan::View(States::Home),
                States::Search => RenderPlan::View(States::Search),
                _ => {
                    ctx.debug("[STM] draw not match".to_owned());
                    RenderPlan::Nothing
                },
            }
        }
    }
}

} // verus!
