//! The keys that the screens and popups react to.

use vstd::prelude::*;
use crate::ui::components::without_last;

verus! {

/// A key press as the screens see it.
#[derive(Debug, Clone, Copy, PartialEq, Eq, Structural)]
pub enum Key {
    /// A character.
    Char(char),
    /// A character typed while the control key is held.
    Ctrl(char),
    Backspace,
    Delete,
    Enter,
    Tab,
    Up,
    Down,
    Left,
    Right,
    /// Any other key.
    Other,
}

/// The character that a key types, if it types one.
pub open spec fn key_char(key: Key) -> Option<char> {
    match key {
        Key::Char(c) => Some(c),
        Key::Ctrl(c) => Some(c),
        _ => None,
    }
}

/// What a text field holds after a key press while it has the focus: a
/// character is put at its end, backspace takes the last one away, and any
/// other key leaves it alone.
pub open spec fn typed(text: Seq<char>, key: Key) -> Seq<char> {
    match key {
        Key::Char(c) => text.push(c),
        Key::Ctrl(c) => text.push(c),
        Key::Backspace => without_last(text),
        _ => text,
    }
}

/// Lets the focused text field take a key press.
pub fn type_into(text: &mut String, key: Key)
    ensures
        final(text)@ == typed(old(text)@, key),
{
    match key {
        Key::Char(c) => {
            text.push(c);
        },
        Key::Ctrl(c) => {
            text.push(c);
        },
        Key::Backspace => {
            text.pop();
        },
        _ => {},
    }
}

} // verus!
