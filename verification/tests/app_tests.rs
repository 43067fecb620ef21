use kraken_tui::app::Context;
use kraken_tui::{APP_ID, APP_VERSION};

#[test]
fn test_app_id() {
    assert_eq!(APP_ID, "kraken");
}

#[test]
fn test_app_version() {
    assert_eq!(APP_VERSION, "0.0.1+");
}

#[test]
fn test_app_context() {
    let ctx = Context::new_for_testing(());
    assert_eq!(ctx.app_id, String::from("_app_id_"));
    assert_eq!(ctx.app_version, String::from("_app_version_"));
    assert_eq!(ctx.model.debug_messages_stateful.items.len(), 0);
    assert_eq!(
        ctx.info(),
        String::from("AppId:_app_id_, AppVersion:_app_version_\n")
    );
}

#[test]
fn test_debug_appends_to_log() {
    let mut ctx = Context::new_for_testing(());
    ctx.debug("first".to_string());
    ctx.debug("second".to_string());
    assert_eq!(
        ctx.model.debug_messages_stateful.items,
        vec!["first".to_string(), "second".to_string()]
    );
    assert_eq!(ctx.model.debug_messages_stateful.state.selected(), None);
}
