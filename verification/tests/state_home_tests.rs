use kraken_tui::app::Context;
use kraken_tui::kraken::client::{
    AssetEntry, AssetInfo, AssetPair, AssetPairEntry, AssetsResponse, AssetPairsResponse,
    ClientError, RestAPI,
};
use kraken_tui::stm::events::{Event, KeyCode};
use kraken_tui::stm::state_home::HomeState;
use kraken_tui::stm::States;

struct FakeClient {
    connect_ok: bool,
    assets: Option<AssetsResponse>,
    pairs: Option<AssetPairsResponse>,
}

impl RestAPI for FakeClient {
    fn connect(&mut self) -> Result<(), ClientError> {
        if self.connect_ok {
            Ok(())
        } else {
            Err(ClientError { message: "connection refused".to_string() })
        }
    }

    fn list_assets(&self) -> Option<AssetsResponse> {
        self.assets.clone()
    }

    fn list_asset_pairs(&self) -> Option<AssetPairsResponse> {
        self.pairs.clone()
    }
}

fn eth_usdc_pair() -> AssetPairEntry {
    AssetPairEntry {
        key: "ETHUSDC".to_string(),
        pair: AssetPair {
            alt_name: None,
            wsname: Some("ETH/USDC".to_string()),
            aclass_base: "currency".to_string(),
            base: "XETH".to_string(),
            aclass_quote: "currency".to_string(),
            quote: "USDC".to_string(),
            pair_decimals: 2,
            lot_decimals: 8,
            lot_multiplier: 1,
            fees: vec![
                vec!["0".to_string(), "0.26".to_string()],
                vec!["50000".to_string(), "0.24".to_string()],
            ],
            ordermin: Some("0.01".to_string()),
        },
    }
}

#[test]
fn test_home_st() -> Result<(), String> {
    let mut ctx = Context::new(String::from("APP_ID"), String::from("APP_VERSION"), ());

    let event = Event::Key { key_code: KeyCode::Esc };

    let home = HomeState::default();
    home.on_event(event, &mut ctx);

    Ok(())
}

#[test]
fn state_home_test_on_event() -> Result<(), String> {
    let mut ctx = Context::new_for_testing(());

    let state = HomeState::default();

    let event = Event::Key { key_code: KeyCode::Char('f') };
    let to_state = state.on_event(event, &mut ctx);
    assert_eq!(to_state, Some(States::Search));

    let event = Event::Key { key_code: KeyCode::Char('*') };
    let to_state = state.on_event(event, &mut ctx);
    assert_eq!(to_state, None);

    let event = Event::Key { key_code: KeyCode::Down };
    let to_state = state.on_event(event, &mut ctx);
    assert_eq!(to_state, None);

    let event = Event::Key { key_code: KeyCode::Up };
    let to_state = state.on_event(event, &mut ctx);
    assert_eq!(to_state, None);

    let event = Event::Key { key_code: KeyCode::Left };
    let to_state = state.on_event(event, &mut ctx);
    assert_eq!(to_state, None);

    let event = Event::Key { key_code: KeyCode::Char('d') };
    let to_state = state.on_event(event, &mut ctx);
    assert_eq!(to_state, None);

    Ok(())
}

#[test]
fn test_list_assets() -> Result<(), String> {
    let client = FakeClient { connect_ok: true, assets: Some(Vec::new()), pairs: None };
    let mut ctx = Context::new_for_testing(client);

    let mut state = HomeState::default();
    state.on_enter_once(&mut ctx);

    assert_eq!(state.on_enter_first, false);

    assert_eq!(ctx.model.assets.len(), 0);
    assert_eq!(ctx.model.assets_stateful.items.len(), 0);
    assert_eq!(ctx.model.assets_stateful.state.selected(), None);

    Ok(())
}

#[test]
fn test_enter_connect_failure_leaves_catalogue() -> Result<(), String> {
    let client = FakeClient {
        connect_ok: false,
        assets: Some(vec![AssetEntry {
            key: "XETH".to_string(),
            info: AssetInfo {
                altname: "ETH".to_string(),
                aclass: "currency".to_string(),
                decimals: 10,
                display_decimals: 5,
            },
        }]),
        pairs: None,
    };
    let mut ctx = Context::new_for_testing(client);

    let mut state = HomeState::default();
    state.on_enter_once(&mut ctx);

    assert_eq!(state.on_enter_first, false);
    // the connection failed, so the fetched list is never taken over
    assert_eq!(ctx.model.assets.len(), 0);
    assert_eq!(ctx.model.debug_messages_stateful.items.len(), 1);

    Ok(())
}

#[test]
fn state_home_test_asset_pair_select() -> Result<(), String> {
    let mut ctx = Context::new_for_testing(());

    ctx.model
        .favorites_asset_pairs_stateful
        .push("ETH/USDC".to_owned());

    ctx.model.asset_pairs = vec![eth_usdc_pair()];
    assert_eq!(ctx.model.asset_pairs.len(), 1);

    let state = HomeState::default();

    let event = Event::Key { key_code: KeyCode::Down };
    let to_state = state.on_event(event, &mut ctx);
    assert_eq!(to_state, None);

    assert_eq!(ctx.model.favorites_asset_pairs_stateful.items.len(), 1);
    assert_eq!(
        ctx.model.favorites_asset_pairs_stateful.state.selected(),
        Some(0)
    );

    let event = Event::Key { key_code: KeyCode::Enter };

    let to_state = state.on_event(event, &mut ctx);
    assert_eq!(to_state, None);

    assert_eq!(
        ctx.model.favorites_asset_pairs_info_stateful.items.len(),
        13
    );
    assert_eq!(
        ctx.model
            .favorites_asset_pairs_info_stateful
            .state
            .selected(),
        None
    );

    Ok(())
}

#[test]
fn test_detail_pane_lines() -> Result<(), String> {
    let mut ctx = Context::new_for_testing(());

    ctx.model
        .favorites_asset_pairs_stateful
        .push("ETH/USDC".to_owned());
    ctx.model.asset_pairs = vec![eth_usdc_pair()];

    let state = HomeState::default();
    let event = Event::Key { key_code: KeyCode::Down };
    state.on_event(event, &mut ctx);

    let lines = &ctx.model.favorites_asset_pairs_info_stateful.items;
    assert_eq!(lines[0], "      alt_name:None");
    assert_eq!(lines[1], "        wsname:Some(\"ETH/USDC\")");
    assert_eq!(lines[2], "   aclass_base:currency");
    assert_eq!(lines[3], "          base:XETH");
    assert_eq!(lines[4], "  aclass_quote:currency");
    assert_eq!(lines[5], "         quote:USDC");
    assert_eq!(lines[6], " pair_decimals:2");
    assert_eq!(lines[7], "  lot_decimals:8");
    assert_eq!(lines[8], "lot_multiplier:1");
    assert_eq!(lines[9], "          fees:");
    assert_eq!(lines[10], "             - [0, 0.26]");
    assert_eq!(lines[11], "             - [50000, 0.24]");
    assert_eq!(lines[12], "      ordermin:Some(0.01)");

    Ok(())
}

#[test]
fn test_home_remove_favorite() -> Result<(), String> {
    // a favorites list with exactly one entry at index 0: `d` removes it and
    // clears both the selection and the detail pane; a second `d` is a no-op
    let mut ctx = Context::new_for_testing(());

    ctx.model
        .favorites_asset_pairs_stateful
        .push("ETH/USDC".to_owned());
    ctx.model.asset_pairs = vec![eth_usdc_pair()];

    let state = HomeState::default();
    state.on_event(Event::Key { key_code: KeyCode::Down }, &mut ctx);
    assert_eq!(
        ctx.model.favorites_asset_pairs_stateful.state.selected(),
        Some(0)
    );
    assert!(ctx.model.favorites_asset_pairs_info_stateful.items.len() > 0);

    state.on_event(Event::Key { key_code: KeyCode::Char('d') }, &mut ctx);
    assert_eq!(ctx.model.favorites_asset_pairs_stateful.items.len(), 0);
    assert_eq!(
        ctx.model.favorites_asset_pairs_stateful.state.selected(),
        None
    );
    assert_eq!(ctx.model.favorites_asset_pairs_info_stateful.items.len(), 0);

    state.on_event(Event::Key { key_code: KeyCode::Char('d') }, &mut ctx);
    assert_eq!(ctx.model.favorites_asset_pairs_stateful.items.len(), 0);
    assert_eq!(
        ctx.model.favorites_asset_pairs_stateful.state.selected(),
        None
    );

    Ok(())
}

#[test]
fn state_home_test_state_help() -> Result<(), String> {
    let state = HomeState::default();
    assert_eq!(state.help_text().len(), 203);

    Ok(())
}
