//! Terminal colors and their numeric and escape-sequence projections.

use vstd::prelude::*;

verus! {

/// A terminal color: the terminal's default, one of the eight named
/// colors, or an arbitrary byte value for 256-color mode.
#[derive(Clone, Copy, PartialEq, Eq, Structural, Debug)]
pub enum Color {
    Default,
    Black,
    Red,
    Green,
    Yellow,
    Blue,
    Magenta,
    Cyan,
    White,
    Byte(u16),
}

/// The 256-color code of a color. `Default` has no real byte code;
/// its value here is the historical `999` sentinel, which the escape
/// builders special-case away and `as_256color` excludes.
pub open spec fn spec_color_code(c: Color) -> u16 {
    match c {
        Color::Default => 999,
        Color::Black => 0,
        Color::Red => 1,
        Color::Green => 2,
        Color::Yellow => 3,
        Color::Blue => 4,
        Color::Magenta => 5,
        Color::Cyan => 6,
        Color::White => 7,
        Color::Byte(b) => b,
    }
}

/// The 4-bit legacy color code: `Default` is 0 and the named colors count
/// up from 1. A `Byte` color has no legacy code.
pub open spec fn spec_16_color_code(c: Color) -> u16
    recommends
        !(c is Byte),
{
    match c {
        Color::Default => 0,
        Color::Black => 1,
        Color::Red => 2,
        Color::Green => 3,
        Color::Yellow => 4,
        Color::Blue => 5,
        Color::Magenta => 6,
        Color::Cyan => 7,
        Color::White => 8,
        Color::Byte(_) => 0,
    }
}

/// The decimal digit character for a value below ten.
pub open spec fn spec_digit_char(d: nat) -> char
    recommends
        d < 10,
{
    ((0x30 + d) as u8) as char
}

/// The decimal digits of `n`, most significant first, as characters.
pub open spec fn spec_dec_chars(n: nat) -> Seq<char>
    decreases n,
{
    if n < 10 {
        seq![spec_digit_char(n)]
    } else {
        spec_dec_chars(n / 10).push(spec_digit_char(n % 10))
    }
}

/// The foreground escape for a color: `ESC[39m` for the default color,
/// else `ESC[38;5;<code>m`.
pub open spec fn spec_fg_chars(c: Color) -> Seq<char> {
    if c is Default {
        seq!['\x1b', '[', '3', '9', 'm']
    } else {
        seq!['\x1b', '[', '3', '8', ';', '5', ';'] + spec_dec_chars(spec_color_code(c) as nat)
            + seq!['m']
    }
}

/// The background escape for a color: `ESC[49m` for the default color,
/// else `ESC[48;5;<code>m`.
pub open spec fn spec_bg_chars(c: Color) -> Seq<char> {
    if c is Default {
        seq!['\x1b', '[', '4', '9', 'm']
    } else {
        seq!['\x1b', '[', '4', '8', ';', '5', ';'] + spec_dec_chars(spec_color_code(c) as nat)
            + seq!['m']
    }
}

/// Appends the single decimal digit `d` to `s`.
fn push_digit_char(s: &mut String, d: u16)
    requires
        d < 10,
    ensures
        final(s)@ == old(s)@ + seq![spec_digit_char(d as nat)],
{
    proof {
        reveal_strlit("0");
        reveal_strlit("1");
        reveal_strlit("2");
        reveal_strlit("3");
        reveal_strlit("4");
        reveal_strlit("5");
        reveal_strlit("6");
        reveal_strlit("7");
        reveal_strlit("8");
        reveal_strlit("9");
    }
    match d {
        0 => s.append("0"),
        1 => s.append("1"),
        2 => s.append("2"),
        3 => s.append("3"),
        4 => s.append("4"),
        5 => s.append("5"),
        6 => s.append("6"),
        7 => s.append("7"),
        8 => s.append("8"),
        _ => s.append("9"),
    }
    proof {
        assert(final(s)@ =~= old(s)@ + seq![spec_digit_char(d as nat)]);
    }
}

/// Appends the decimal digits of `n` to `s`, most significant first.
fn push_decimal(s: &mut String, n: u16)
    ensures
        final(s)@ == old(s)@ + spec_dec_chars(n as nat),
    decreases n,
{
    if n >= 10 {
        push_decimal(s, n / 10);
    }
    push_digit_char(s, n % 10);
    proof {
        assert(final(s)@ =~= old(s)@ + spec_dec_chars(n as nat));
    }
}

impl Color {
    /// The 256-color code, with `999` standing in for `Default`, which has
    /// no byte code; the escape-string builders reject the sentinel.
    pub fn as_256_color(&self) -> (r: u16)
        ensures
            r == spec_color_code(*self),
    {
        match *self {
            Color::Default => 999,
            Color::Black => 0,
            Color::Red => 1,
            Color::Green => 2,
            Color::Yellow => 3,
            Color::Blue => 4,
            Color::Magenta => 5,
            Color::Cyan => 6,
            Color::White => 7,
            Color::Byte(b) => b,
        }
    }

    /// The 256-color code of a non-default color. `Default` has no byte
    /// code and is rejected by the precondition rather than coerced.
    pub fn as_256color(&self) -> (r: u16)
        requires
            !(*self is Default),
        ensures
            r == spec_color_code(*self),
    {
        match *self {
            Color::Default => 0,
            Color::Black => 0,
            Color::Red => 1,
            Color::Green => 2,
            Color::Yellow => 3,
            Color::Blue => 4,
            Color::Magenta => 5,
            Color::Cyan => 6,
            Color::White => 7,
            Color::Byte(b) => b,
        }
    }

    /// The 4-bit legacy color code. A `Byte` color has none and is
    /// rejected by the precondition rather than coerced.
    pub fn as_16color(&self) -> (r: u16)
        requires
            !(*self is Byte),
        ensures
            r == spec_16_color_code(*self),
    {
        match *self {
            Color::Default => 0,
            Color::Black => 1,
            Color::Red => 2,
            Color::Green => 3,
            Color::Yellow => 4,
            Color::Blue => 5,
            Color::Magenta => 6,
            Color::Cyan => 7,
            Color::White => 8,
            Color::Byte(_) => 0,
        }
    }

    /// The foreground escape string for this color.
    pub fn as_fg_str(&self) -> (r: String)
        ensures
            r@ == spec_fg_chars(*self),
    {
        let mut s = String::new();
        if let Color::Default = *self {
            proof {
                reveal_strlit("\x1b[39m");
            }
            s.append("\x1b[39m");
            proof {
                assert(s@ =~= spec_fg_chars(*self));
            }
        } else {
            proof {
                reveal_strlit("\x1b[38;5;");
                reveal_strlit("m");
            }
            s.append("\x1b[38;5;");
            push_decimal(&mut s, self.as_256_color());
            s.append("m");
            proof {
                assert(s@ =~= spec_fg_chars(*self));
            }
        }
        s
    }

    /// The background escape string for this color.
    pub fn as_bg_str(&self) -> (r: String)
        ensures
            r@ == spec_bg_chars(*self),
    {
        let mut s = String::new();
        if let Color::Default = *self {
            proof {
                reveal_strlit("\x1b[49m");
            }
            s.append("\x1b[49m");
            proof {
                assert(s@ =~= spec_bg_chars(*self));
            }
        } else {
            proof {
                reveal_strlit("\x1b[48;5;");
                reveal_strlit("m");
            }
            s.append("\x1b[48;5;");
            push_decimal(&mut s, self.as_256_color());
            s.append("m");
            proof {
                assert(s@ =~= spec_bg_chars(*self));
            }
        }
        s
    }
}

impl Default for Color {
    /// The historical default of the cell-attribute path: black.
    fn default() -> (r: Color)
        ensures
            r == Color::Black,
    {
        Color::Black
    }
}

} // verus!
