//! The vocabulary that the user interface and the editor exchange.

use vstd::prelude::*;

verus! {

/// What the user asked for, independent of the key that asked for it.
#[derive(Clone, Copy, Debug, PartialEq, Eq, Structural)]
pub enum Action {
    Up,
    Down,
    Left,
    Right,
    PgUp,
    PgDown,
    Activate,
    Cancel,
    Add,
    AddAttribute,
    Copy,
    Delete,
    Save,
    Undo,
    Redo,
    ToggleSelect,
    ToggleRemote,
    Tab,
    Input(char),
    Backspace,
    Quit,
    Help,
    Noop,
}

/// A key press, reduced to what the key map distinguishes.
#[derive(Clone, Copy, Debug, PartialEq, Eq, Structural)]
pub enum Key {
    Enter,
    Esc,
    Backspace,
    Tab,
    Up,
    Down,
    Left,
    Right,
    PageUp,
    PageDown,
    Char(char),
    Other,
}

/// The action bound to a key while free text is being captured.
pub open spec fn text_action(key: Key) -> Action {
    match key {
        Key::Enter => Action::Activate,
        Key::Esc => Action::Cancel,
        Key::Backspace => Action::Backspace,
        Key::Char(c) => Action::Input(c),
        _ => Action::Noop,
    }
}

/// The action bound to a key while the connection form is open.
pub open spec fn prompt_action(key: Key) -> Action {
    match key {
        Key::Enter => Action::Activate,
        Key::Esc => Action::Cancel,
        Key::Backspace => Action::Backspace,
        Key::Tab => Action::Tab,
        Key::Up => Action::Up,
        Key::Down => Action::Down,
        Key::PageUp => Action::PgUp,
        Key::PageDown => Action::PgDown,
        Key::Char(c) => Action::Input(c),
        _ => Action::Noop,
    }
}

/// The action bound to a character key while a list is browsed.
pub open spec fn browse_char_action(c: char) -> Action {
    if c == 'q' {
        Action::Quit
    } else if c == 'k' {
        Action::Up
    } else if c == 'j' {
        Action::Down
    } else if c == 'h' {
        Action::Left
    } else if c == 'l' {
        Action::Right
    } else if c == 's' {
        Action::Save
    } else if c == 'a' {
        Action::Add
    } else if c == 'c' {
        Action::Copy
    } else if c == 'd' {
        Action::Delete
    } else if c == 't' {
        Action::AddAttribute
    } else if c == 'r' {
        Action::ToggleRemote
    } else if c == '?' {
        Action::Help
    } else {
        Action::Input(c)
    }
}

/// The action bound to a key while a list is browsed.
pub open spec fn browse_action(key: Key) -> Action {
    match key {
        Key::Char(c) => browse_char_action(c),
        Key::Up => Action::Up,
        Key::Down => Action::Down,
        Key::Enter => Action::Activate,
        Key::Left => Action::Left,
        Key::Right => Action::Right,
        Key::Tab => Action::Tab,
        Key::Esc => Action::Cancel,
        Key::Backspace => Action::Backspace,
        Key::PageUp => Action::PgUp,
        Key::PageDown => Action::PgDown,
        Key::Other => Action::Noop,
    }
}

/// The action bound to a key: text capture comes first, then the
/// connection form, then browsing.
pub open spec fn key_action(key: Key, text_editing: bool, prompt_mode: bool) -> Action {
    if text_editing {
        text_action(key)
    } else if prompt_mode {
        prompt_action(key)
    } else {
        browse_action(key)
    }
}

fn map_browse_char(c: char) -> (r: Action)
    ensures
        r == browse_char_action(c),
{
    if c == 'q' {
        Action::Quit
    } else if c == 'k' {
        Action::Up
    } else if c == 'j' {
        Action::Down
    } else if c == 'h' {
        Action::Left
    } else if c == 'l' {
        Action::Right
    } else if c == 's' {
        Action::Save
    } else if c == 'a' {
        Action::Add
    } else if c == 'c' {
        Action::Copy
    } else if c == 'd' {
        Action::Delete
    } else if c == 't' {
        Action::AddAttribute
    } else if c == 'r' {
        Action::ToggleRemote
    } else if c == '?' {
        Action::Help
    } else {
        Action::Input(c)
    }
}

/// Maps a key press to the action bound to it in the current mode.
pub fn map_key_to_action(key: Key, text_editing: bool, prompt_mode: bool) -> (r: Action)
    ensures
        r == key_action(key, text_editing, prompt_mode),
{
    if text_editing {
        return match key {
            Key::Enter => Action::Activate,
            Key::Esc => Action::Cancel,
            Key::Backspace => Action::Backspace,
            Key::Char(c) => Action::Input(c),
            _ => Action::Noop,
        };
    }
    if prompt_mode {
        return match key {
            Key::Enter => Action::Activate,
            Key::Esc => Action::Cancel,
            Key::Backspace => Action::Backspace,
            Key::Tab => Action::Tab,
            Key::Up => Action::Up,
            Key::Down => Action::Down,
            Key::PageUp => Action::PgUp,
            Key::PageDown => Action::PgDown,
            Key::Char(c) => Action::Input(c),
            _ => Action::Noop,
        };
    }
    match key {
        Key::Char(c) => map_browse_char(c),
        Key::Up => Action::Up,
        Key::Down => Action::Down,
        Key::Enter => Action::Activate,
        Key::Left => Action::Left,
        Key::Right => Action::Right,
        Key::Tab => Action::Tab,
        Key::Esc => Action::Cancel,
        Key::Backspace => Action::Backspace,
        Key::PageUp => Action::PgUp,
        Key::PageDown => Action::PgDown,
        Key::Other => Action::Noop,
    }
}

} // verus!
