use guess_the_sharpe::app::GuessTarget;
use guess_the_sharpe::event::{event_for_key, AppEvent, EventHandler, KeyInput};

#[test]
fn keys_map_to_events() {
    assert_eq!(event_for_key(KeyInput::Char('q')), AppEvent::Quit);
    assert_eq!(event_for_key(KeyInput::Esc), AppEvent::Quit);
    assert_eq!(event_for_key(KeyInput::Char('r')), AppEvent::Recalc);
    assert_eq!(event_for_key(KeyInput::Char('n')), AppEvent::NextRound);
    assert_eq!(event_for_key(KeyInput::Char('t')), AppEvent::ToggleTarget);
    assert_eq!(event_for_key(KeyInput::Char('5')), AppEvent::CharInput('5'));
    assert_eq!(event_for_key(KeyInput::Char('.')), AppEvent::CharInput('.'));
    assert_eq!(event_for_key(KeyInput::Char('-')), AppEvent::CharInput('-'));
    assert_eq!(event_for_key(KeyInput::Backspace), AppEvent::Backspace);
    assert_eq!(event_for_key(KeyInput::Enter), AppEvent::Enter);
    assert_eq!(event_for_key(KeyInput::Other), AppEvent::Tick);
}

#[test]
fn event_handler_constructs() {
    let _handler = EventHandler::new();
}

#[test]
fn target_names() {
    assert_eq!(GuessTarget::Sample.name(), "Sample");
    assert_eq!(GuessTarget::Actual.name(), "Actual");
}
