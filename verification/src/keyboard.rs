//! Keyboard keys and the numeric key-code table.

use vstd::prelude::*;

verus! {

/// A key on the keyboard: named keys, plain characters, control-modified
/// characters, function keys, and a fallback for codes the table does not
/// know.
#[derive(Clone, Copy, PartialEq, Eq, Structural, Hash, Debug)]
pub enum Key {
    Tab,
    Enter,
    Esc,
    Backspace,
    Right,
    Left,
    Up,
    Down,
    Delete,
    Insert,
    Home,
    End,
    PageUp,
    PageDown,
    /// A character key, representable by a single Rust `char`.
    Char(char),
    /// A character pressed together with the Control key.
    Ctrl(char),
    /// A function key, by number.
    F(u32),
    /// A raw code outside the table.
    Unknown(u16),
}

/// The fixed key-code table: which `Key` a raw numeric code stands for.
///
/// Codes 1..=26 are the control characters (with Tab, Enter and Esc taking
/// the slots of Ctrl-i, Ctrl-m and Ctrl-[), 28..=32 the remaining control
/// codes and the space, 127 the backspace, and the codes counting down from
/// 65535 the function and navigation keys. Every other code maps to `None`.
pub open spec fn spec_key_of_code(code: u16) -> Option<Key> {
    if code == 1 {
        Some(Key::Ctrl('a'))
    } else if code == 2 {
        Some(Key::Ctrl('b'))
    } else if code == 3 {
        Some(Key::Ctrl('c'))
    } else if code == 4 {
        Some(Key::Ctrl('d'))
    } else if code == 5 {
        Some(Key::Ctrl('e'))
    } else if code == 6 {
        Some(Key::Ctrl('f'))
    } else if code == 7 {
        Some(Key::Ctrl('g'))
    } else if code == 8 {
        Some(Key::Ctrl('h'))
    } else if code == 9 {
        Some(Key::Tab)
    } else if code == 10 {
        Some(Key::Ctrl('j'))
    } else if code == 11 {
        Some(Key::Ctrl('k'))
    } else if code == 12 {
        Some(Key::Ctrl('l'))
    } else if code == 13 {
        Some(Key::Enter)
    } else if code == 14 {
        Some(Key::Ctrl('n'))
    } else if code == 15 {
        Some(Key::Ctrl('o'))
    } else if code == 16 {
        Some(Key::Ctrl('p'))
    } else if code == 17 {
        Some(Key::Ctrl('q'))
    } else if code == 18 {
        Some(Key::Ctrl('r'))
    } else if code == 19 {
        Some(Key::Ctrl('s'))
    } else if code == 20 {
        Some(Key::Ctrl('t'))
    } else if code == 21 {
        Some(Key::Ctrl('u'))
    } else if code == 22 {
        Some(Key::Ctrl('v'))
    } else if code == 23 {
        Some(Key::Ctrl('w'))
    } else if code == 24 {
        Some(Key::Ctrl('x'))
    } else if code == 25 {
        Some(Key::Ctrl('y'))
    } else if code == 26 {
        Some(Key::Ctrl('z'))
    } else if code == 27 {
        Some(Key::Esc)
    } else if code == 28 {
        Some(Key::Ctrl('\\'))
    } else if code == 29 {
        Some(Key::Ctrl(']'))
    } else if code == 30 {
        Some(Key::Ctrl('6'))
    } else if code == 31 {
        Some(Key::Ctrl('/'))
    } else if code == 32 {
        Some(Key::Char(' '))
    } else if code == 127 {
        Some(Key::Backspace)
    } else if code == 65514 {
        Some(Key::Right)
    } else if code == 65515 {
        Some(Key::Left)
    } else if code == 65516 {
        Some(Key::Down)
    } else if code == 65517 {
        Some(Key::Up)
    } else if 65524 <= code <= 65535 {
        Some(Key::F((65536 - code as u32) as u32))
    } else if code == 65523 {
        Some(Key::Insert)
    } else if code == 65522 {
        Some(Key::Delete)
    } else if code == 65521 {
        Some(Key::Home)
    } else if code == 65520 {
        Some(Key::End)
    } else if code == 65519 {
        Some(Key::PageUp)
    } else if code == 65518 {
        Some(Key::PageDown)
    } else {
        None
    }
}

impl Key {
    /// Looks a raw numeric code up in the key-code table.
    ///
    /// Total over all codes: a code outside the table yields `None`, never
    /// a panic.
    pub fn from_code(code: u16) -> (r: Option<Key>)
        ensures
            r == spec_key_of_code(code),
    {
        match code {
            1 => Some(Key::Ctrl('a')),
            2 => Some(Key::Ctrl('b')),
            3 => Some(Key::Ctrl('c')),
            4 => Some(Key::Ctrl('d')),
            5 => Some(Key::Ctrl('e')),
            6 => Some(Key::Ctrl('f')),
            7 => Some(Key::Ctrl('g')),
            8 => Some(Key::Ctrl('h')),
            9 => Some(Key::Tab),
            10 => Some(Key::Ctrl('j')),
            11 => Some(Key::Ctrl('k')),
            12 => Some(Key::Ctrl('l')),
            13 => Some(Key::Enter),
            14 => Some(Key::Ctrl('n')),
            15 => Some(Key::Ctrl('o')),
            16 => Some(Key::Ctrl('p')),
            17 => Some(Key::Ctrl('q')),
            18 => Some(Key::Ctrl('r')),
            19 => Some(Key::Ctrl('s')),
            20 => Some(Key::Ctrl('t')),
            21 => Some(Key::Ctrl('u')),
            22 => Some(Key::Ctrl('v')),
            23 => Some(Key::Ctrl('w')),
            24 => Some(Key::Ctrl('x')),
            25 => Some(Key::Ctrl('y')),
            26 => Some(Key::Ctrl('z')),
            27 => Some(Key::Esc),
            28 => Some(Key::Ctrl('\\')),
            29 => Some(Key::Ctrl(']')),
            30 => Some(Key::Ctrl('6')),
            31 => Some(Key::Ctrl('/')),
            32 => Some(Key::Char(' ')),
            127 => Some(Key::Backspace),
            65514 => Some(Key::Right),
            65515 => Some(Key::Left),
            65516 => Some(Key::Down),
            65517 => Some(Key::Up),
            65535 => Some(Key::F(1)),
            65534 => Some(Key::F(2)),
            65533 => Some(Key::F(3)),
            65532 => Some(Key::F(4)),
            65531 => Some(Key::F(5)),
            65530 => Some(Key::F(6)),
            65529 => Some(Key::F(7)),
            65528 => Some(Key::F(8)),
            65527 => Some(Key::F(9)),
            65526 => Some(Key::F(10)),
            65525 => Some(Key::F(11)),
            65524 => Some(Key::F(12)),
            65523 => Some(Key::Insert),
            65522 => Some(Key::Delete),
            65521 => Some(Key::Home),
            65520 => Some(Key::End),
            65519 => Some(Key::PageUp),
            65518 => Some(Key::PageDown),
            _ => None,
        }
    }
}

} // verus!
