//! Keys read from the terminal, and the editor actions they stand for.
use vstd::prelude::*;

verus! {

/// A key as read from the terminal.
#[derive(Clone, Copy, Debug, PartialEq, Eq, Structural)]
pub enum Key {
    /// A character key, pressed alone or with modifiers other than Control alone.
    Char(char),
    /// A character key pressed with Control and no other modifier.
    Ctrl(char),
    Up,
    Down,
    Left,
    Right,
    Home,
    End,
    PageUp,
    PageDown,
    /// Any other key.
    Other,
}

/// A one-step cursor movement.
#[derive(Clone, Copy, Debug, PartialEq, Eq, Structural)]
pub enum EditorKey {
    Left,
    Right,
    Up,
    Down,
}

/// What a key asks the editor to do.
#[derive(Clone, Copy, Debug, PartialEq, Eq, Structural)]
pub enum Action {
    /// Move the cursor one step.
    Move(EditorKey),
    /// Move the cursor to the start of its line.
    Home,
    /// Move the cursor to the end of its line.
    End,
    /// Move the cursor up by one screen height.
    PageUp,
    /// Move the cursor down by one screen height.
    PageDown,
    /// Leave the editor.
    Quit,
    /// Do nothing.
    Nothing,
}

/// The movement that a letter key stands for: `w` up, `a` left, `s` down, `d` right.
pub open spec fn letter_move(c: char) -> Option<EditorKey> {
    if c == 'w' {
        Some(EditorKey::Up)
    } else if c == 'a' {
        Some(EditorKey::Left)
    } else if c == 's' {
        Some(EditorKey::Down)
    } else if c == 'd' {
        Some(EditorKey::Right)
    } else {
        None
    }
}

/// The action of `key`. Control-q quits; the letters `w`, `a`, `s`, `d`, with or
/// without Control, and the arrow keys move one step; Home, End, Page Up and
/// Page Down move as their names say; every other key does nothing.
pub open spec fn action_of(key: Key) -> Action {
    match key {
        Key::Ctrl(c) if c == 'q' => Action::Quit,
        Key::Char(c) | Key::Ctrl(c) => match letter_move(c) {
            Some(k) => Action::Move(k),
            None => Action::Nothing,
        },
        Key::Up => Action::Move(EditorKey::Up),
        Key::Down => Action::Move(EditorKey::Down),
        Key::Left => Action::Move(EditorKey::Left),
        Key::Right => Action::Move(EditorKey::Right),
        Key::Home => Action::Home,
        Key::End => Action::End,
        Key::PageUp => Action::PageUp,
        Key::PageDown => Action::PageDown,
        Key::Other => Action::Nothing,
    }
}

fn letter_key(c: char) -> (r: Option<EditorKey>)
    ensures
        r == letter_move(c),
{
    match c {
        'w' => Some(EditorKey::Up),
        'a' => Some(EditorKey::Left),
        's' => Some(EditorKey::Down),
        'd' => Some(EditorKey::Right),
        _ => None,
    }
}

/// The action of `key`.
pub fn key_action(key: Key) -> (a: Action)
    ensures
        a == action_of(key),
{
    match key {
        Key::Ctrl('q') => Action::Quit,
        Key::Char(c) | Key::Ctrl(c) => match letter_key(c) {
            Some(k) => Action::Move(k),
            None => Action::Nothing,
        },
        Key::Up => Action::Move(EditorKey::Up),
        Key::Down => Action::Move(EditorKey::Down),
        Key::Left => Action::Move(EditorKey::Left),
        Key::Right => Action::Move(EditorKey::Right),
        Key::Home => Action::Home,
        Key::End => Action::End,
        Key::PageUp => Action::PageUp,
        Key::PageDown => Action::PageDown,
        Key::Other => Action::Nothing,
    }
}

} // verus!
