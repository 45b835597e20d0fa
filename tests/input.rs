use lsu::input::{map_confirmation_key, map_key, Key, UiCommand};
use lsu::types::{ConfirmationKind, UnitAction, ViewMode};

#[test]
fn map_key_list_mode_maps_navigation_and_opening() {
    assert_eq!(map_key(ViewMode::List, Key::Enter), Some(UiCommand::OpenDetail));
    assert_eq!(map_key(ViewMode::List, Key::Char('l')), Some(UiCommand::OpenDetail));
    assert_eq!(map_key(ViewMode::List, Key::Down), Some(UiCommand::MoveDown));
    assert_eq!(map_key(ViewMode::List, Key::Up), Some(UiCommand::MoveUp));
    assert_eq!(map_key(ViewMode::List, Key::Char('s')), Some(UiCommand::RequestStartStop));
    assert_eq!(map_key(ViewMode::List, Key::Char('e')), Some(UiCommand::RequestEnableDisable));
}

#[test]
fn map_key_detail_mode_maps_back_and_refresh_detail() {
    assert_eq!(map_key(ViewMode::Detail, Key::Esc), Some(UiCommand::BackToList));
    assert_eq!(map_key(ViewMode::Detail, Key::Char('b')), Some(UiCommand::BackToList));
    assert_eq!(map_key(ViewMode::Detail, Key::Char('l')), Some(UiCommand::RefreshDetail));
}

#[test]
fn map_key_maps_quit_refresh_and_unknown_keys() {
    assert_eq!(map_key(ViewMode::List, Key::Char('q')), Some(UiCommand::Quit));
    assert_eq!(map_key(ViewMode::List, Key::Char('r')), Some(UiCommand::Refresh));
    assert_eq!(map_key(ViewMode::Detail, Key::Char('r')), Some(UiCommand::Refresh));
    assert_eq!(map_key(ViewMode::Detail, Key::Enter), None);
    assert_eq!(map_key(ViewMode::Detail, Key::Char('s')), None);
}

#[test]
fn map_confirmation_key_maps_accept_and_decline() {
    let kind = ConfirmationKind::ConfirmAction(UnitAction::Start);
    assert_eq!(map_confirmation_key(kind, Key::Char('y')), Some(UiCommand::Confirm));
    assert_eq!(map_confirmation_key(kind, Key::Enter), Some(UiCommand::Confirm));
    assert_eq!(map_confirmation_key(kind, Key::Char('n')), Some(UiCommand::Cancel));
    assert_eq!(map_confirmation_key(kind, Key::Esc), Some(UiCommand::Cancel));
    assert_eq!(map_confirmation_key(kind, Key::Char('x')), None);
}

#[test]
fn map_confirmation_key_maps_restart_or_stop_prompt() {
    let kind = ConfirmationKind::RestartOrStop;
    assert_eq!(map_confirmation_key(kind, Key::Char('r')), Some(UiCommand::ChooseRestart));
    assert_eq!(map_confirmation_key(kind, Key::Char('s')), Some(UiCommand::ChooseStop));
    assert_eq!(map_confirmation_key(kind, Key::Esc), Some(UiCommand::Cancel));
    assert_eq!(map_confirmation_key(kind, Key::Enter), None);
}
