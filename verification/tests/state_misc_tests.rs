use kraken_tui::app::Context;
use kraken_tui::stm::events::{Event, KeyCode};
use kraken_tui::stm::state_debug::DebugState;
use kraken_tui::stm::state_help::HelpState;
use kraken_tui::stm::state_unknown::UnknownState;
use kraken_tui::stm::States;

#[test]
fn test_debug_state() -> Result<(), String> {
    let mut ctx = Context::new_for_testing(());

    let debug = DebugState;

    let event = Event::Key { key_code: KeyCode::Esc };
    let to_state = debug.on_event(event, &mut ctx);
    assert_eq!(to_state, Some(States::PreviousOne));

    let event = Event::Key { key_code: KeyCode::Down };
    let to_state = debug.on_event(event, &mut ctx);
    assert_eq!(to_state, None);

    let event = Event::Key { key_code: KeyCode::Up };
    let to_state = debug.on_event(event, &mut ctx);
    assert_eq!(to_state, None);

    let event = Event::Key { key_code: KeyCode::Left };
    let to_state = debug.on_event(event, &mut ctx);
    assert_eq!(to_state, None);

    Ok(())
}

#[test]
fn test_debug_state_navigates_log() -> Result<(), String> {
    let mut ctx = Context::new_for_testing(());
    ctx.debug("one".to_string());
    ctx.debug("two".to_string());

    let debug = DebugState;

    debug.on_event(Event::Key { key_code: KeyCode::Down }, &mut ctx);
    assert_eq!(ctx.model.debug_messages_stateful.state.selected(), Some(0));

    debug.on_event(Event::Key { key_code: KeyCode::Down }, &mut ctx);
    assert_eq!(ctx.model.debug_messages_stateful.state.selected(), Some(1));

    debug.on_event(Event::Key { key_code: KeyCode::Up }, &mut ctx);
    assert_eq!(ctx.model.debug_messages_stateful.state.selected(), Some(0));

    debug.on_event(Event::Key { key_code: KeyCode::Left }, &mut ctx);
    assert_eq!(ctx.model.debug_messages_stateful.state.selected(), None);

    // the log itself is untouched by navigation
    assert_eq!(ctx.model.debug_messages_stateful.items.len(), 2);

    Ok(())
}

#[test]
fn test_home_state() -> Result<(), String> {
    let mut ctx = Context::new_for_testing(());

    let help = HelpState;

    let event = Event::Key { key_code: KeyCode::Char('*') };
    let to_state = help.on_event(event, &mut ctx);
    assert_eq!(to_state, None);

    Ok(())
}

#[test]
fn test_state_help() -> Result<(), String> {
    let state = HelpState;
    assert_eq!(state.help_text().len(), 22);

    Ok(())
}

#[test]
fn test_unknown_state() -> Result<(), String> {
    let mut ctx = Context::new_for_testing(());

    let unknown = UnknownState;

    let event = Event::Key { key_code: KeyCode::Esc };
    let to_state = unknown.on_event(event, &mut ctx);
    assert_eq!(to_state, Some(States::Home));

    let event = Event::Key { key_code: KeyCode::Char('x') };
    let to_state = unknown.on_event(event, &mut ctx);
    assert_eq!(to_state, None);
    assert_eq!(ctx.model.debug_messages_stateful.items.len(), 1);

    Ok(())
}
