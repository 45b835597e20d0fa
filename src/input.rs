//! Keys to commands: what a key press means in each view and prompt.

use vstd::prelude::*;

use crate::types::{ConfirmationKind, ViewMode};

verus! {

/// A key press, as far as the interface tells keys apart.
#[derive(Debug, Clone, Copy, PartialEq, Eq, Structural)]
pub enum Key {
    /// A character key.
    Char(char),
    Up,
    Down,
    Enter,
    Esc,
    /// Any other key.
    Other,
}

/// What the operator asked for.
#[derive(Debug, Clone, Copy, PartialEq, Eq, Structural)]
pub enum UiCommand {
    Quit,
    Refresh,
    MoveDown,
    MoveUp,
    OpenDetail,
    BackToList,
    RefreshDetail,
    RequestStartStop,
    RequestEnableDisable,
    Confirm,
    Cancel,
    ChooseRestart,
    ChooseStop,
}

/// The command of a key in a view.
pub open spec fn key_command(view_mode: ViewMode, key: Key) -> Option<UiCommand> {
    match (view_mode, key) {
        (_, Key::Char('q')) => Some(UiCommand::Quit),
        (_, Key::Char('r')) => Some(UiCommand::Refresh),
        (_, Key::Down) => Some(UiCommand::MoveDown),
        (_, Key::Up) => Some(UiCommand::MoveUp),
        (ViewMode::List, Key::Char('l')) => Some(UiCommand::OpenDetail),
        (ViewMode::List, Key::Enter) => Some(UiCommand::OpenDetail),
        (ViewMode::List, Key::Char('s')) => Some(UiCommand::RequestStartStop),
        (ViewMode::List, Key::Char('e')) => Some(UiCommand::RequestEnableDisable),
        (ViewMode::Detail, Key::Esc) => Some(UiCommand::BackToList),
        (ViewMode::Detail, Key::Char('b')) => Some(UiCommand::BackToList),
        (ViewMode::Detail, Key::Char('l')) => Some(UiCommand::RefreshDetail),
        _ => None,
    }
}

/// Translate a key in the current view to a command.
pub fn map_key(view_mode: ViewMode, key: Key) -> (r: Option<UiCommand>)
    ensures
        r == key_command(view_mode, key),
{
    match view_mode {
        ViewMode::List => match key {
            Key::Char('q') => Some(UiCommand::Quit),
            Key::Char('r') => Some(UiCommand::Refresh),
            Key::Down => Some(UiCommand::MoveDown),
            Key::Up => Some(UiCommand::MoveUp),
            Key::Char('l') | Key::Enter => Some(UiCommand::OpenDetail),
            Key::Char('s') => Some(UiCommand::RequestStartStop),
            Key::Char('e') => Some(UiCommand::RequestEnableDisable),
            _ => None,
        },
        ViewMode::Detail => match key {
            Key::Char('q') => Some(UiCommand::Quit),
            Key::Char('r') => Some(UiCommand::Refresh),
            Key::Down => Some(UiCommand::MoveDown),
            Key::Up => Some(UiCommand::MoveUp),
            Key::Esc | Key::Char('b') => Some(UiCommand::BackToList),
            Key::Char('l') => Some(UiCommand::RefreshDetail),
            _ => None,
        },
    }
}

/// The command of a key while a prompt is pending.
pub open spec fn prompt_command(kind: ConfirmationKind, key: Key) -> Option<UiCommand> {
    match (kind, key) {
        (ConfirmationKind::ConfirmAction(_), Key::Char('y')) => Some(UiCommand::Confirm),
        (ConfirmationKind::ConfirmAction(_), Key::Enter) => Some(UiCommand::Confirm),
        (ConfirmationKind::ConfirmAction(_), Key::Char('n')) => Some(UiCommand::Cancel),
        (_, Key::Esc) => Some(UiCommand::Cancel),
        (ConfirmationKind::RestartOrStop, Key::Char('r')) => Some(UiCommand::ChooseRestart),
        (ConfirmationKind::RestartOrStop, Key::Char('s')) => Some(UiCommand::ChooseStop),
        _ => None,
    }
}

/// Translate a key while a confirmation prompt is pending.
pub fn map_confirmation_key(kind: ConfirmationKind, key: Key) -> (r: Option<UiCommand>)
    ensures
        r == prompt_command(kind, key),
{
    match kind {
        ConfirmationKind::ConfirmAction(_) => match key {
            Key::Char('y') | Key::Enter => Some(UiCommand::Confirm),
            Key::Char('n') | Key::Esc => Some(UiCommand::Cancel),
            _ => None,
        },
        ConfirmationKind::RestartOrStop => match key {
            Key::Char('r') => Some(UiCommand::ChooseRestart),
            Key::Char('s') => Some(UiCommand::ChooseStop),
            Key::Esc => Some(UiCommand::Cancel),
            _ => None,
        },
    }
}

} // verus!
