//! The per-cell text style and its attribute escape sequence.

use vstd::prelude::*;

verus! {

/// A text style attribute for one cell. `Normal` means no attribute.
#[derive(Clone, Copy, PartialEq, Eq, Structural, Debug)]
pub enum Style {
    Normal,
    Underline,
    Bold,
    Blink,
    Reverse,
}

/// The attribute escape of a style, as characters: `None` for `Normal`,
/// else `ESC[<n>m` with 1 for bold, 4 for underline, 5 for blink and 7
/// for reverse.
pub open spec fn spec_style_chars(s: Style) -> Option<Seq<char>> {
    match s {
        Style::Normal => None,
        Style::Underline => Some(seq!['\x1b', '[', '4', 'm']),
        Style::Bold => Some(seq!['\x1b', '[', '1', 'm']),
        Style::Blink => Some(seq!['\x1b', '[', '5', 'm']),
        Style::Reverse => Some(seq!['\x1b', '[', '7', 'm']),
    }
}

impl Style {
    /// The attribute escape for this style, or `None` for `Normal`.
    pub fn as_str(&self) -> (r: Option<&'static str>)
        ensures
            match r {
                None => *self is Normal,
                Some(t) => spec_style_chars(*self) == Some(t@),
            },
    {
        proof {
            reveal_strlit("\x1b[4m");
            reveal_strlit("\x1b[1m");
            reveal_strlit("\x1b[5m");
            reveal_strlit("\x1b[7m");
        }
        let r = match *self {
            Style::Normal => None,
            Style::Underline => Some("\x1b[4m"),
            Style::Bold => Some("\x1b[1m"),
            Style::Blink => Some("\x1b[5m"),
            Style::Reverse => Some("\x1b[7m"),
        };
        proof {
            if let Some(t) = r {
                assert(spec_style_chars(*self)->0 =~= t@);
            }
        }
        r
    }
}

} // verus!
