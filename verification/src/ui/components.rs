//! The pieces that screens are built from.

use vstd::prelude::*;
use crate::ui::home::MAX_ENTRY_LENGTH;
use crate::ui::keys::Key;

verus! {

/// Rows that a button takes.
pub const BUTTON_HEIGHT: u16 = 3;

/// Rows that an input field takes.
pub const INPUT_HEIGHT: u16 = 3;

/// Columns of text that an input field shows.
pub const MAX_INPUT_WIDTH: u16 = 32;

/// Columns between the text of an input field and its border.
pub const PADDING: u16 = 2;

/// `s` without its last character, or `s` itself where it is empty.
pub open spec fn without_last(s: Seq<char>) -> Seq<char> {
    if s.len() == 0 {
        s
    } else {
        s.drop_last()
    }
}

/// How a button is to be drawn.
pub struct ButtonConfig {
    pub focused: bool,
    pub title: String,
}

impl ButtonConfig {
    /// A button with a title, focused or not.
    pub fn new(focused: bool, title: String) -> (r: Self)
        ensures
            r.focused == focused,
            r.title == title,
    {
        ButtonConfig { focused, title }
    }

    /// Rows that a button takes.
    pub fn height() -> (r: u16)
        ensures
            r == BUTTON_HEIGHT,
    {
        BUTTON_HEIGHT
    }
}

/// How an input field is to be drawn.
pub struct InputConfig {
    pub focused: bool,
    pub value: String,
    pub hidden: bool,
    pub title: String,
    pub cursor_position: Option<u16>,
}

impl InputConfig {
    /// An input field with its value and title.
    pub fn new(
        focused: bool,
        value: String,
        hidden: bool,
        title: String,
        cursor_position: Option<u16>,
    ) -> (r: Self)
        ensures
            r.focused == focused,
            r.value == value,
            r.hidden == hidden,
            r.title == title,
            r.cursor_position == cursor_position,
    {
        InputConfig { focused, value, hidden, title, cursor_position }
    }

    /// Rows that an input field takes.
    pub fn height() -> (r: u16)
        ensures
            r == INPUT_HEIGHT,
    {
        INPUT_HEIGHT
    }

    /// Columns that an input field takes: the text and the padding on both
    /// sides.
    pub fn width() -> (r: u16)
        ensures
            r == MAX_INPUT_WIDTH + 2 * PADDING,
    {
        MAX_INPUT_WIDTH + 2 * PADDING
    }
}

/// The line that shows a domain with its password hidden: two spaces, the
/// domain, a colon between spaces, and one bullet for each column of the
/// password.
pub open spec fn hidden_line(domain: Seq<char>) -> Seq<char> {
    seq![' ', ' '] + domain + seq![' ', ':', ' '] + Seq::new(
        MAX_ENTRY_LENGTH as nat,
        |i: int| '\u{2022}',
    )
}

/// The line that shows `domain` with its password hidden.
pub fn hidden_value(domain: String) -> (r: String)
    ensures
        r@ == hidden_line(domain@),
{
    let chars: Vec<char> = crate::text::chars_of(domain.as_str());
    let mut out: Vec<char> = Vec::new();
    out.push(' ');
    out.push(' ');
    let mut i: usize = 0;
    while i < chars.len()
        invariant
            i <= chars.len(),
            out@ == seq![' ', ' '] + chars@.subrange(0, i as int),
        decreases chars.len() - i,
    {
        out.push(chars[i]);
        proof {
            assert(out@ =~= seq![' ', ' '] + chars@.subrange(0, i + 1));
        }
        i = i + 1;
    }
    out.push(' ');
    out.push(':');
    out.push(' ');
    let ghost head = out@;
    proof {
        assert(chars@.subrange(0, chars@.len() as int) =~= chars@);
        assert(head =~= seq![' ', ' '] + domain@ + seq![' ', ':', ' ']);
    }
    let mut k: u16 = 0;
    while k < MAX_ENTRY_LENGTH
        invariant
            k <= MAX_ENTRY_LENGTH,
            out@ == head + Seq::new(k as nat, |i: int| '\u{2022}'),
        decreases MAX_ENTRY_LENGTH - k,
    {
        out.push('\u{2022}');
        proof {
            assert(out@ =~= head + Seq::new((k + 1) as nat, |i: int| '\u{2022}'));
        }
        k = k + 1;
    }
    crate::text::string_of(&out)
}

/// An input field.
pub struct Input {}

/// Where the cursor of an input field stands: where its configuration puts
/// it, or behind the last character where that says nothing.
pub open spec fn cursor_of(cursor_position: Option<u16>, len: int) -> int {
    match cursor_position {
        Some(c) => c as int,
        None => len,
    }
}

/// What an input field holds, and where its cursor stands, after a key
/// press. A character is put in at the cursor unless the field is full;
/// backspace takes out the character before the cursor, delete the one
/// under it; the arrows move the cursor within the text.
pub open spec fn input_after(value: Seq<char>, cursor: int, key: Key) -> (Seq<char>, int) {
    match key {
        Key::Char(c) => if value.len() == MAX_INPUT_WIDTH {
            (value, cursor)
        } else {
            (value.insert(cursor, c), cursor + 1)
        },
        Key::Ctrl(c) => if value.len() == MAX_INPUT_WIDTH {
            (value, cursor)
        } else {
            (value.insert(cursor, c), cursor + 1)
        },
        Key::Backspace => if cursor > 0 {
            (value.remove(cursor - 1), cursor - 1)
        } else {
            (value, cursor)
        },
        Key::Delete => if cursor < value.len() {
            (value.remove(cursor), cursor)
        } else {
            (value, cursor)
        },
        Key::Left => if cursor > 0 {
            (value, cursor - 1)
        } else {
            (value, cursor)
        },
        Key::Right => if cursor != MAX_INPUT_WIDTH && cursor < value.len() {
            (value, cursor + 1)
        } else {
            (value, cursor)
        },
        _ => (value, cursor),
    }
}

impl Input {
    /// Lets an input field take a key press. Returns what it holds
    /// afterwards and where its cursor stands. The cursor must lie within
    /// the text, and the text must be short enough for a `u16` to count.
    pub fn handle_key(key: Key, config: &InputConfig, previous_value: String) -> (r: (
        String,
        u16,
    ))
        requires
            previous_value@.len() < u16::MAX,
            cursor_of(config.cursor_position, previous_value@.len() as int) <= previous_value@.len(),
        ensures
            (r.0@, r.1 as int) == input_after(
                previous_value@,
                cursor_of(config.cursor_position, previous_value@.len() as int),
                key,
            ),
    {
        let mut value: Vec<char> = crate::text::chars_of(previous_value.as_str());
        let len: usize = value.len();
        let mut cursor: u16 = match config.cursor_position {
            Some(c) => c,
            None => len as u16,
        };
        match key {
            Key::Char(c) => {
                if len != MAX_INPUT_WIDTH as usize {
                    value.insert(cursor as usize, c);
                    cursor = cursor + 1;
                }
            },
            Key::Ctrl(c) => {
                if len != MAX_INPUT_WIDTH as usize {
                    value.insert(cursor as usize, c);
                    cursor = cursor + 1;
                }
            },
            Key::Backspace => {
                if cursor > 0 {
                    value.remove(cursor as usize - 1);
                    cursor = cursor - 1;
                }
            },
            Key::Delete => {
                if (cursor as usize) < len {
                    value.remove(cursor as usize);
                }
            },
            Key::Left => {
                if cursor > 0 {
                    cursor = cursor - 1;
                }
            },
            Key::Right => {
                if cursor != MAX_INPUT_WIDTH && (cursor as usize) < len {
                    cursor = cursor + 1;
                }
            },
            _ => {},
        }
        (crate::text::string_of(&value), cursor)
    }
}

} // verus!
