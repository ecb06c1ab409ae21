//! Keys, the actions they stand for, and which key means what in which mode.

use vstd::prelude::*;
use crate::app::Mode;
use crate::machine::ModeModel;

verus! {

/// What has happened to a key.
#[derive(Debug, Clone, Copy, PartialEq, Eq, Structural)]
pub enum KeyKind {
    Press,
    Repeat,
    Release,
}

/// A key of the keyboard, as far as the controller tells keys apart.
#[derive(Debug, Clone, Copy, PartialEq, Eq, Structural)]
pub enum Key {
    Char(char),
    Enter,
    Esc,
    Backspace,
    Up,
    Down,
    Left,
    Right,
    Other,
}

/// Everything the controller can be asked to do.
#[derive(Debug, Clone, Copy, PartialEq, Eq, Structural)]
pub enum Action {
    Quit,
    Next,
    Previous,
    IncreaseState,
    DecreaseState,
    MoveUp,
    MoveDown,
    Add,
    Delete,
    Edit,
    Confirm,
    Cancel,
    Yes,
    No,
    Insert(char),
    Backspace,
}

/// What `key` asks for while browsing the list.
pub open spec fn normal_binding(key: Key) -> Option<Action> {
    match key {
        Key::Char('q') => Some(Action::Quit),
        Key::Char('j') | Key::Down => Some(Action::Next),
        Key::Char('k') | Key::Up => Some(Action::Previous),
        Key::Char('l') | Key::Right => Some(Action::IncreaseState),
        Key::Char('h') | Key::Left => Some(Action::DecreaseState),
        Key::Char('J') => Some(Action::MoveDown),
        Key::Char('K') => Some(Action::MoveUp),
        Key::Char('a') => Some(Action::Add),
        Key::Char('d') => Some(Action::Delete),
        Key::Char('e') => Some(Action::Edit),
        _ => None,
    }
}

/// What `key` asks for while a title is typed.
pub open spec fn editing_binding(key: Key) -> Option<Action> {
    match key {
        Key::Enter => Some(Action::Confirm),
        Key::Esc => Some(Action::Cancel),
        Key::Char(c) => Some(Action::Insert(c)),
        Key::Backspace => Some(Action::Backspace),
        _ => None,
    }
}

/// What `key` asks for while a deletion waits for its answer.
pub open spec fn confirm_binding(key: Key) -> Option<Action> {
    match key {
        Key::Char('y') | Key::Char('Y') => Some(Action::Yes),
        Key::Char('n') | Key::Char('N') => Some(Action::No),
        Key::Esc => Some(Action::Cancel),
        _ => None,
    }
}

/// What `key` asks for in the given mode, if anything.
pub open spec fn binding(mode: ModeModel, key: Key) -> Option<Action> {
    match mode {
        ModeModel::Normal => normal_binding(key),
        ModeModel::Editing => editing_binding(key),
        ModeModel::ConfirmDelete { .. } => confirm_binding(key),
        ModeModel::EditingTask { .. } => editing_binding(key),
    }
}

/// The action that `key` stands for in `mode`, or `None` for a key that has
/// no meaning there.
pub fn action_for(mode: &Mode, key: Key) -> (r: Option<Action>)
    ensures
        r == binding(mode@, key),
{
    match mode {
        Mode::Normal => match key {
            Key::Char('q') => Some(Action::Quit),
            Key::Char('j') | Key::Down => Some(Action::Next),
            Key::Char('k') | Key::Up => Some(Action::Previous),
            Key::Char('l') | Key::Right => Some(Action::IncreaseState),
            Key::Char('h') | Key::Left => Some(Action::DecreaseState),
            Key::Char('J') => Some(Action::MoveDown),
            Key::Char('K') => Some(Action::MoveUp),
            Key::Char('a') => Some(Action::Add),
            Key::Char('d') => Some(Action::Delete),
            Key::Char('e') => Some(Action::Edit),
            _ => None,
        },
        Mode::Editing | Mode::EditingTask { .. } => match key {
            Key::Enter => Some(Action::Confirm),
            Key::Esc => Some(Action::Cancel),
            Key::Char(c) => Some(Action::Insert(c)),
            Key::Backspace => Some(Action::Backspace),
            _ => None,
        },
        Mode::ConfirmDelete { .. } => match key {
            Key::Char('y') | Key::Char('Y') => Some(Action::Yes),
            Key::Char('n') | Key::Char('N') => Some(Action::No),
            Key::Esc => Some(Action::Cancel),
            _ => None,
        },
    }
}

} // verus!
