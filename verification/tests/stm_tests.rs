use std::cell::Cell;

use kraken_tui::app::Context;
use kraken_tui::kraken::client::{AssetsResponse, AssetPairsResponse, ClientError, RestAPI};
use kraken_tui::stm::events::{Event, KeyCode};
use kraken_tui::stm::stm_main::{MainStm, RenderPlan};
use kraken_tui::stm::States;

struct FakeClient {
    connect_ok: bool,
    assets: Option<AssetsResponse>,
    pairs: Option<AssetPairsResponse>,
    connect_calls: Cell<u32>,
    asset_calls: Cell<u32>,
    pair_calls: Cell<u32>,
}

impl FakeClient {
    fn ok_empty() -> FakeClient {
        FakeClient {
            connect_ok: true,
            assets: Some(Vec::new()),
            pairs: Some(Vec::new()),
            connect_calls: Cell::new(0),
            asset_calls: Cell::new(0),
            pair_calls: Cell::new(0),
        }
    }
}

impl RestAPI for FakeClient {
    fn connect(&mut self) -> Result<(), ClientError> {
        self.connect_calls.set(self.connect_calls.get() + 1);
        if self.connect_ok {
            Ok(())
        } else {
            Err(ClientError { message: "connection refused".to_string() })
        }
    }

    fn list_assets(&self) -> Option<AssetsResponse> {
        self.asset_calls.set(self.asset_calls.get() + 1);
        self.assets.clone()
    }

    fn list_asset_pairs(&self) -> Option<AssetPairsResponse> {
        self.pair_calls.set(self.pair_calls.get() + 1);
        self.pairs.clone()
    }
}

fn key(key_code: KeyCode) -> Event {
    Event::Key { key_code }
}

#[test]
fn stm_main_test_stm() -> Result<(), String> {
    let mut ctx = Context::new_for_testing(FakeClient::ok_empty());

    let mut stm = MainStm::new("my_stm", false);
    assert_eq!(stm.name, "my_stm");
    assert!(matches!(stm.current_st, States::Unknown));

    // home
    stm.on_event(key(KeyCode::Esc), &mut ctx);
    assert!(matches!(stm.current_st, States::Home));

    // help
    stm.on_event(key(KeyCode::Char('?')), &mut ctx);
    assert!(matches!(stm.current_st, States::Help));

    // home
    stm.on_event(key(KeyCode::Esc), &mut ctx);
    assert!(matches!(stm.current_st, States::Home));

    // search
    stm.on_event(key(KeyCode::Char('f')), &mut ctx);
    assert!(matches!(stm.current_st, States::Search));

    // help
    stm.on_event(key(KeyCode::Char('?')), &mut ctx);
    assert!(matches!(stm.current_st, States::Help));

    // search
    stm.on_event(key(KeyCode::Esc), &mut ctx);
    assert!(matches!(stm.current_st, States::Search));

    // debug
    stm.on_event(key(KeyCode::Char('D')), &mut ctx);
    assert!(matches!(stm.current_st, States::Debug));

    // search
    stm.on_event(key(KeyCode::Esc), &mut ctx);
    assert!(matches!(stm.current_st, States::Search));

    // each entry hook ran exactly once along the way
    assert_eq!(ctx.kraken_api.connect_calls.get(), 1);
    assert_eq!(ctx.kraken_api.asset_calls.get(), 1);
    assert_eq!(ctx.kraken_api.pair_calls.get(), 1);

    Ok(())
}

#[test]
fn test_entry_hooks_fire_once() -> Result<(), String> {
    // start in Unknown; Esc reaches Home and its entry fetch fires exactly
    // once, even across later re-entries; f reaches Search whose fetch fires
    // once; ? overlays Help over Search; Esc returns to Search; D reaches
    // Debug; Esc returns to Search, not Home
    let mut ctx = Context::new_for_testing(FakeClient::ok_empty());
    let mut stm = MainStm::new("stm", false);

    stm.on_event(key(KeyCode::Esc), &mut ctx);
    assert!(matches!(stm.current_st, States::Home));
    assert_eq!(ctx.kraken_api.connect_calls.get(), 1);
    assert_eq!(ctx.kraken_api.asset_calls.get(), 1);

    stm.on_event(key(KeyCode::Char('f')), &mut ctx);
    assert!(matches!(stm.current_st, States::Search));
    assert_eq!(ctx.kraken_api.pair_calls.get(), 1);

    stm.on_event(key(KeyCode::Char('?')), &mut ctx);
    assert!(matches!(stm.current_st, States::Help));
    let plan = stm.render_plan(&mut ctx);
    assert!(matches!(
        plan,
        RenderPlan::HelpOverlay { base: Some(States::Search), text: _ }
    ));

    stm.on_event(key(KeyCode::Esc), &mut ctx);
    assert!(matches!(stm.current_st, States::Search));

    stm.on_event(key(KeyCode::Char('D')), &mut ctx);
    assert!(matches!(stm.current_st, States::Debug));
    stm.on_event(key(KeyCode::Esc), &mut ctx);
    assert!(matches!(stm.current_st, States::Search));

    // re-enter Home and Search: the hooks do not fire again
    stm.on_event(key(KeyCode::Char('h')), &mut ctx);
    assert!(matches!(stm.current_st, States::Home));
    stm.on_event(key(KeyCode::Char('f')), &mut ctx);
    assert!(matches!(stm.current_st, States::Search));

    assert_eq!(ctx.kraken_api.connect_calls.get(), 1);
    assert_eq!(ctx.kraken_api.asset_calls.get(), 1);
    assert_eq!(ctx.kraken_api.pair_calls.get(), 1);

    Ok(())
}

#[test]
fn core_test_stm() -> Result<(), String> {
    let mut ctx = Context::new(
        String::from("APP_ID"),
        String::from("APP_VERSION"),
        FakeClient::ok_empty(),
    );

    let mut stm = MainStm::new("my_stm", false);
    assert_eq!(stm.name, "my_stm");
    assert!(matches!(stm.current_st, States::Unknown));

    stm.switch_state(States::Search, &mut ctx);
    assert!(matches!(stm.current_st, States::Search));

    stm.on_event(key(KeyCode::Esc), &mut ctx);

    Ok(())
}

#[test]
fn test_previous_one_without_record_is_noop() -> Result<(), String> {
    let mut ctx = Context::new_for_testing(FakeClient::ok_empty());
    let mut stm = MainStm::new("stm", false);

    stm.switch_state(States::PreviousOne, &mut ctx);
    assert!(matches!(stm.current_st, States::Unknown));

    Ok(())
}

#[test]
fn test_previous_one_twice_undoes_once() -> Result<(), String> {
    let mut ctx = Context::new_for_testing(FakeClient::ok_empty());
    let mut stm = MainStm::new("stm", false);

    stm.switch_state(States::Search, &mut ctx);
    assert!(matches!(stm.current_st, States::Search));

    stm.switch_state(States::PreviousOne, &mut ctx);
    assert!(matches!(stm.current_st, States::Unknown));

    // the undo slot is a single level, not a stack: the second undo is a
    // no-op
    stm.switch_state(States::PreviousOne, &mut ctx);
    assert!(matches!(stm.current_st, States::Unknown));

    Ok(())
}

#[test]
fn test_debug_returns_to_prior_state() -> Result<(), String> {
    let mut ctx = Context::new_for_testing(FakeClient::ok_empty());
    let mut stm = MainStm::new("stm", false);

    // from Home
    stm.on_event(key(KeyCode::Esc), &mut ctx);
    assert!(matches!(stm.current_st, States::Home));
    stm.on_event(key(KeyCode::Char('D')), &mut ctx);
    assert!(matches!(stm.current_st, States::Debug));
    stm.on_event(key(KeyCode::Esc), &mut ctx);
    assert!(matches!(stm.current_st, States::Home));

    // from Search
    stm.on_event(key(KeyCode::Char('f')), &mut ctx);
    assert!(matches!(stm.current_st, States::Search));
    stm.on_event(key(KeyCode::Char('D')), &mut ctx);
    assert!(matches!(stm.current_st, States::Debug));
    stm.on_event(key(KeyCode::Esc), &mut ctx);
    assert!(matches!(stm.current_st, States::Search));

    Ok(())
}

#[test]
fn test_render_plan_direct_view() -> Result<(), String> {
    let mut ctx = Context::new_for_testing(FakeClient::ok_empty());
    let mut stm = MainStm::new("stm", false);

    let plan = stm.render_plan(&mut ctx);
    assert!(matches!(plan, RenderPlan::View(States::Unknown)));

    stm.on_event(key(KeyCode::Esc), &mut ctx);
    let plan = stm.render_plan(&mut ctx);
    assert!(matches!(plan, RenderPlan::View(States::Home)));

    Ok(())
}

#[test]
fn test_connect_failure_keeps_machine_navigable() -> Result<(), String> {
    let client = FakeClient {
        connect_ok: false,
        assets: None,
        pairs: None,
        connect_calls: Cell::new(0),
        asset_calls: Cell::new(0),
        pair_calls: Cell::new(0),
    };
    let mut ctx = Context::new_for_testing(client);
    let mut stm = MainStm::new("stm", false);

    stm.on_event(key(KeyCode::Esc), &mut ctx);
    assert!(matches!(stm.current_st, States::Home));
    assert_eq!(ctx.model.assets.len(), 0);

    stm.on_event(key(KeyCode::Char('f')), &mut ctx);
    assert!(matches!(stm.current_st, States::Search));
    assert_eq!(ctx.model.asset_pairs.len(), 0);

    stm.on_event(key(KeyCode::Char('h')), &mut ctx);
    assert!(matches!(stm.current_st, States::Home));

    Ok(())
}
