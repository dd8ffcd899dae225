//! Keys as the terminal reports them, and the actions they stand for in
//! each input mode.

use crate::app::InputMode;
use crate::config::KeyBindings;
use vstd::prelude::*;

verus! {

/// A key of the keyboard.
#[derive(Clone, Copy, Debug, PartialEq, Eq, Structural)]
pub enum Key {
    Char(char),
    Enter,
    Esc,
    Backspace,
    Tab,
    BackTab,
    Up,
    Down,
    Left,
    /// Any key that no mode gives a meaning to.
    Other,
}

/// A key that was pressed.
#[derive(Clone, Copy, Debug, PartialEq, Eq, Structural)]
pub struct KeyPress {
    pub key: Key,
    /// The control key, and no other modifier, was held.
    pub control: bool,
}

/// What the user asks for.
#[derive(Clone, Copy, Debug, PartialEq, Eq, Structural)]
pub enum Action {
    NewSnippet,
    Find,
    CopySelected,
    DeleteSelected,
    EditSelected,
    CursorUp,
    CursorDown,
    CursorClear,
    Quit,
    Insert(char),
    Backspace,
    Confirm,
    Save,
    Paste,
    Indent,
    Unindent,
    Cancel,
    ConfirmYes,
    ConfirmNo,
    Ignore,
}

/// What a key means while a list is shown and nothing is typed: the
/// characters of the configuration come first, then the key that edits,
/// which is the enter key where the configuration names none, then the
/// keys that quit and move the cursor.
pub open spec fn classified_normal(press: KeyPress, bindings: KeyBindings) -> Action {
    if press.key == Key::Char(bindings.new) {
        Action::NewSnippet
    } else if press.key == Key::Char(bindings.find) {
        Action::Find
    } else if press.key == Key::Char(bindings.copy) {
        Action::CopySelected
    } else if press.key == Key::Char(bindings.delete) {
        Action::DeleteSelected
    } else if bindings.edit is Some && press.key == Key::Char(bindings.edit.unwrap()) {
        Action::EditSelected
    } else if bindings.edit is None && press.key == Key::Enter {
        Action::EditSelected
    } else {
        match press.key {
            Key::Esc => Action::Quit,
            Key::Up => Action::CursorUp,
            Key::Down => Action::CursorDown,
            Key::Left => Action::CursorClear,
            _ => Action::Ignore,
        }
    }
}

/// What a key means while a query is typed.
pub open spec fn classified_search(press: KeyPress) -> Action {
    match press.key {
        Key::Enter => Action::Confirm,
        Key::Char(c) => Action::Insert(c),
        Key::Backspace => Action::Backspace,
        Key::Esc => Action::Quit,
        Key::Up => Action::CursorUp,
        Key::Down => Action::CursorDown,
        Key::Left => Action::CursorClear,
        _ => Action::Ignore,
    }
}

/// What a key means while a snippet is edited. Control with `v` pastes;
/// control with the character for saving saves; any other character is
/// typed.
pub open spec fn classified_edit(press: KeyPress, bindings: KeyBindings) -> Action {
    if press.key == Key::Char('v') && press.control {
        Action::Paste
    } else {
        match press.key {
            Key::Esc => Action::Cancel,
            Key::Char(c) => if c == bindings.save && press.control {
                Action::Save
            } else {
                Action::Insert(c)
            },
            Key::Backspace => Action::Backspace,
            Key::Enter => Action::Confirm,
            Key::Tab => Action::Indent,
            Key::BackTab => Action::Unindent,
            _ => Action::Ignore,
        }
    }
}

/// What a key means while a deletion waits for its confirmation.
pub open spec fn classified_confirm(press: KeyPress) -> Action {
    if press.key == Key::Char('y') {
        Action::ConfirmYes
    } else if press.key == Key::Char('n') {
        Action::ConfirmNo
    } else {
        Action::Ignore
    }
}

/// What a key means in a mode.
pub open spec fn classified(mode: InputMode, press: KeyPress, bindings: KeyBindings) -> Action {
    match mode {
        InputMode::Normal => classified_normal(press, bindings),
        InputMode::Search => classified_search(press),
        InputMode::NewSnippet(_) => classified_edit(press, bindings),
        InputMode::ConfirmDelete(_) => classified_confirm(press),
    }
}

fn is_char(key: Key, wanted: char) -> (same: bool)
    ensures
        same == (key == Key::Char(wanted)),
{
    match key {
        Key::Char(c) => c == wanted,
        _ => false,
    }
}

fn classify_normal(press: KeyPress, bindings: &KeyBindings) -> (action: Action)
    ensures
        action == classified_normal(press, *bindings),
{
    if is_char(press.key, bindings.new) {
        return Action::NewSnippet;
    }
    if is_char(press.key, bindings.find) {
        return Action::Find;
    }
    if is_char(press.key, bindings.copy) {
        return Action::CopySelected;
    }
    if is_char(press.key, bindings.delete) {
        return Action::DeleteSelected;
    }
    match bindings.edit {
        Some(edit) => {
            if is_char(press.key, edit) {
                return Action::EditSelected;
            }
        },
        None => {
            if press.key == Key::Enter {
                return Action::EditSelected;
            }
        },
    }
    match press.key {
        Key::Esc => Action::Quit,
        Key::Up => Action::CursorUp,
        Key::Down => Action::CursorDown,
        Key::Left => Action::CursorClear,
        _ => Action::Ignore,
    }
}

fn classify_edit(press: KeyPress, bindings: &KeyBindings) -> (action: Action)
    ensures
        action == classified_edit(press, *bindings),
{
    if press.control && is_char(press.key, 'v') {
        return Action::Paste;
    }
    match press.key {
        Key::Esc => Action::Cancel,
        Key::Char(c) => {
            if c == bindings.save && press.control {
                Action::Save
            } else {
                Action::Insert(c)
            }
        },
        Key::Backspace => Action::Backspace,
        Key::Enter => Action::Confirm,
        Key::Tab => Action::Indent,
        Key::BackTab => Action::Unindent,
        _ => Action::Ignore,
    }
}

/// The action that a key stands for in the given mode.
pub fn classify(mode: &InputMode, press: &KeyPress, bindings: &KeyBindings) -> (action: Action)
    ensures
        action == classified(*mode, *press, *bindings),
{
    match mode {
        InputMode::Normal => classify_normal(*press, bindings),
        InputMode::Search => match press.key {
            Key::Enter => Action::Confirm,
            Key::Char(c) => Action::Insert(c),
            Key::Backspace => Action::Backspace,
            Key::Esc => Action::Quit,
            Key::Up => Action::CursorUp,
            Key::Down => Action::CursorDown,
            Key::Left => Action::CursorClear,
            _ => Action::Ignore,
        },
        InputMode::NewSnippet(_) => classify_edit(*press, bindings),
        InputMode::ConfirmDelete(_) => {
            if is_char(press.key, 'y') {
                Action::ConfirmYes
            } else if is_char(press.key, 'n') {
                Action::ConfirmNo
            } else {
                Action::Ignore
            }
        },
    }
}

} // verus!
