use vstd::prelude::*;

use crate::text::{begins_with_text, same_text};

verus! {

/// A key press, as the terminal reports it.
#[derive(Clone, Copy, Debug, PartialEq, Eq, Structural)]
pub enum Key {
    Backspace,
    Left,
    Right,
    Up,
    Down,
    Esc,
    Char(char),
    Alt(char),
    Ctrl(char),
    Null,
}

/// Which key does what in the browser.
#[derive(Clone, Copy, Debug, PartialEq, Eq, Structural)]
pub struct KeyLayout {
    pub up: Key,
    pub down: Key,
    pub left: Key,
    pub right: Key,
    pub up_arrow: Key,
    pub down_arrow: Key,
    pub left_arrow: Key,
    pub right_arrow: Key,
    pub right_alt: Key,
    pub escape: Key,
    pub quit: Key,
    pub search: Key,
    pub create: Key,
}

/// The keys out of the box: vi-style letters and the arrows to move,
/// enter to open, `q` to quit, `s` to search and `c` to create.
pub open spec fn default_layout() -> KeyLayout {
    KeyLayout {
        up: Key::Char('k'),
        down: Key::Char('j'),
        left: Key::Char('h'),
        right: Key::Char('l'),
        up_arrow: Key::Up,
        down_arrow: Key::Down,
        left_arrow: Key::Left,
        right_arrow: Key::Right,
        right_alt: Key::Char('\n'),
        escape: Key::Esc,
        quit: Key::Char('q'),
        search: Key::Char('s'),
        create: Key::Char('c'),
    }
}

impl Default for KeyLayout {
    fn default() -> (r: KeyLayout)
        ensures
            r == default_layout(),
    {
        KeyLayout {
            up: Key::Char('k'),
            down: Key::Char('j'),
            left: Key::Char('h'),
            right: Key::Char('l'),
            up_arrow: Key::Up,
            down_arrow: Key::Down,
            left_arrow: Key::Left,
            right_arrow: Key::Right,
            right_alt: Key::Char('\n'),
            escape: Key::Esc,
            quit: Key::Char('q'),
            search: Key::Char('s'),
            create: Key::Char('c'),
        }
    }
}

/// `s` begins with `p`.
pub open spec fn begins_with(s: Seq<char>, p: Seq<char>) -> bool {
    p.len() <= s.len() && s.subrange(0, p.len() as int) == p
}

/// The key that a layout setting names: a single ASCII character stands for
/// itself; `up`, `down`, `left`, `right`, `esc` and `none` name those keys;
/// `alt+x` and `ctrl+x` name the chord with the character after the `+`;
/// anything else names no key.
pub open spec fn key_named(s: Seq<char>) -> Key {
    if s.len() == 1 && (s[0] as u32) < 128 {
        Key::Char(s[0])
    } else if s == "up"@ {
        Key::Up
    } else if s == "down"@ {
        Key::Down
    } else if s == "left"@ {
        Key::Left
    } else if s == "right"@ {
        Key::Right
    } else if s == "esc"@ {
        Key::Esc
    } else if begins_with(s, "alt+"@) && s.len() > 4 {
        Key::Alt(s[4])
    } else if begins_with(s, "ctrl+"@) && s.len() > 5 {
        Key::Ctrl(s[5])
    } else {
        Key::Null
    }
}

/// Reads the key that a layout setting names.
pub fn get_key_from(input: &str) -> (r: Key)
    ensures
        r == key_named(input@),
{
    let n = input.unicode_len();
    if n == 1 && (input.get_char(0) as u32) < 128 {
        Key::Char(input.get_char(0))
    } else if same_text(input, "up") {
        Key::Up
    } else if same_text(input, "down") {
        Key::Down
    } else if same_text(input, "left") {
        Key::Left
    } else if same_text(input, "right") {
        Key::Right
    } else if same_text(input, "esc") {
        Key::Esc
    } else if begins_with_text(input, "alt+") && n > 4 {
        Key::Alt(input.get_char(4))
    } else if begins_with_text(input, "ctrl+") && n > 5 {
        Key::Ctrl(input.get_char(5))
    } else {
        Key::Null
    }
}

} // verus!
