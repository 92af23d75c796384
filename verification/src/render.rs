//! The renderer: encodes the cell grid, row-major, into the ANSI byte
//! stream the terminal is sent.
//!
//! Per cell, in order: the attribute reset, the style escape if the
//! style is not `Normal`, the foreground escape, the background escape,
//! and the cell's character in UTF-8.

use vstd::prelude::*;
use vstd::utf8::{encode_scalar, char_is_scalar};
use crate::color::{Color, spec_color_code};
use crate::grid::{Cell, CellGrid};
use crate::style::Style;
use crate::termcodes::{spec_sgr0, push_sgr0};

verus! {

/// The decimal digits of `n`, most significant first, as ASCII bytes.
pub open spec fn spec_dec_bytes(n: nat) -> Seq<u8>
    decreases n,
{
    if n < 10 {
        seq![(0x30 + n) as u8]
    } else {
        spec_dec_bytes(n / 10).push((0x30 + n % 10) as u8)
    }
}

/// Appends the decimal digits of `n` to `out`, most significant first.
pub fn push_dec_bytes(out: &mut Vec<u8>, n: u16)
    ensures
        final(out)@ == old(out)@ + spec_dec_bytes(n as nat),
    decreases n,
{
    if n >= 10 {
        push_dec_bytes(out, n / 10);
    }
    out.push(0x30 + (n % 10) as u8);
    proof {
        assert(final(out)@ =~= old(out)@ + spec_dec_bytes(n as nat));
    }
}

/// Appends the UTF-8 encoding of `c` to `out`.
pub fn push_utf8(out: &mut Vec<u8>, c: char)
    ensures
        final(out)@ == old(out)@ + encode_scalar(c as u32),
{
    proof {
        char_is_scalar(c);
    }
    let s = c as u32;
    if s <= 0x7f {
        out.push((s & 0x7f) as u8);
    } else if s <= 0x7ff {
        out.push(0xc0 | ((s >> 6) & 0x1f) as u8);
        out.push(0x80 | (s & 0x3f) as u8);
    } else if s <= 0xffff {
        out.push(0xe0 | ((s >> 12) & 0x0f) as u8);
        out.push(0x80 | ((s >> 6) & 0x3f) as u8);
        out.push(0x80 | (s & 0x3f) as u8);
    } else {
        out.push(0xf0 | ((s >> 18) & 0x7) as u8);
        out.push(0x80 | ((s >> 12) & 0x3f) as u8);
        out.push(0x80 | ((s >> 6) & 0x3f) as u8);
        out.push(0x80 | (s & 0x3f) as u8);
    }
    proof {
        assert(final(out)@ =~= old(out)@ + encode_scalar(c as u32));
    }
}

/// The decimal digits of a value read as characters and as bytes
/// agree, digit for digit.
pub proof fn lemma_dec_chars_bytes(n: nat)
    ensures
        crate::color::spec_dec_chars(n).map_values(|c: char| c as u8) == spec_dec_bytes(n),
    decreases n,
{
    if n < 10 {
        assert(crate::color::spec_dec_chars(n).map_values(|c: char| c as u8) =~= spec_dec_bytes(
            n,
        ));
    } else {
        lemma_dec_chars_bytes(n / 10);
        assert(crate::color::spec_dec_chars(n).map_values(|c: char| c as u8) =~= spec_dec_bytes(
            n,
        ));
    }
}

/// The foreground escape string and the bytes the renderer emits for
/// the same color agree: the string's characters, read as ASCII
/// bytes, are exactly the rendered bytes.
pub proof fn lemma_fg_escape_agrees(c: Color)
    ensures
        crate::color::spec_fg_chars(c).map_values(|ch: char| ch as u8) == spec_fg_bytes(c),
{
    if c is Default {
        assert(crate::color::spec_fg_chars(c).map_values(|ch: char| ch as u8) =~= spec_fg_bytes(
            c,
        ));
    } else {
        lemma_dec_chars_bytes(spec_color_code(c) as nat);
        assert(crate::color::spec_fg_chars(c).map_values(|ch: char| ch as u8) =~= spec_fg_bytes(
            c,
        ));
    }
}

/// The background escape string and the bytes the renderer emits for
/// the same color agree.
pub proof fn lemma_bg_escape_agrees(c: Color)
    ensures
        crate::color::spec_bg_chars(c).map_values(|ch: char| ch as u8) == spec_bg_bytes(c),
{
    if c is Default {
        assert(crate::color::spec_bg_chars(c).map_values(|ch: char| ch as u8) =~= spec_bg_bytes(
            c,
        ));
    } else {
        lemma_dec_chars_bytes(spec_color_code(c) as nat);
        assert(crate::color::spec_bg_chars(c).map_values(|ch: char| ch as u8) =~= spec_bg_bytes(
            c,
        ));
    }
}

/// The style escape of a cell, as bytes: nothing for `Normal`, else
/// `ESC[<n>m`.
pub open spec fn spec_style_bytes(s: Style) -> Seq<u8> {
    match s {
        Style::Normal => Seq::empty(),
        Style::Underline => seq![0x1bu8, 0x5b, 0x34, 0x6d],
        Style::Bold => seq![0x1bu8, 0x5b, 0x31, 0x6d],
        Style::Blink => seq![0x1bu8, 0x5b, 0x35, 0x6d],
        Style::Reverse => seq![0x1bu8, 0x5b, 0x37, 0x6d],
    }
}

/// The foreground escape of a color, as bytes: `ESC[39m` for the
/// default color, else `ESC[38;5;<code>m`.
pub open spec fn spec_fg_bytes(c: Color) -> Seq<u8> {
    if c is Default {
        seq![0x1bu8, 0x5b, 0x33, 0x39, 0x6d]
    } else {
        seq![0x1bu8, 0x5b, 0x33, 0x38, 0x3b, 0x35, 0x3b] + spec_dec_bytes(
            spec_color_code(c) as nat,
        ) + seq![0x6du8]
    }
}

/// The background escape of a color, as bytes: `ESC[49m` for the
/// default color, else `ESC[48;5;<code>m`.
pub open spec fn spec_bg_bytes(c: Color) -> Seq<u8> {
    if c is Default {
        seq![0x1bu8, 0x5b, 0x34, 0x39, 0x6d]
    } else {
        seq![0x1bu8, 0x5b, 0x34, 0x38, 0x3b, 0x35, 0x3b] + spec_dec_bytes(
            spec_color_code(c) as nat,
        ) + seq![0x6du8]
    }
}

/// Everything emitted for one cell: reset, style, foreground,
/// background, character.
pub open spec fn spec_cell_bytes(c: Cell) -> Seq<u8> {
    spec_sgr0() + spec_style_bytes(c.style) + spec_fg_bytes(c.fg) + spec_bg_bytes(c.bg)
        + encode_scalar(c.ch as u32)
}

/// Everything emitted for one row, cells left to right.
pub open spec fn spec_row_bytes(row: Seq<Cell>) -> Seq<u8>
    decreases row.len(),
{
    if row.len() == 0 {
        Seq::empty()
    } else {
        spec_cell_bytes(row[0]) + spec_row_bytes(row.drop_first())
    }
}

/// Everything emitted for one frame, rows top to bottom.
pub open spec fn spec_frame_bytes(g: Seq<Seq<Cell>>) -> Seq<u8>
    decreases g.len(),
{
    if g.len() == 0 {
        Seq::empty()
    } else {
        spec_row_bytes(g[0]) + spec_frame_bytes(g.drop_first())
    }
}

/// A row's bytes grow cell by cell.
pub proof fn lemma_row_bytes_snoc(row: Seq<Cell>, c: Cell)
    ensures
        spec_row_bytes(row.push(c)) == spec_row_bytes(row) + spec_cell_bytes(c),
    decreases row.len(),
{
    reveal_with_fuel(spec_row_bytes, 3);
    if row.len() == 0 {
        assert(row.push(c).drop_first() =~= row);
        assert(spec_row_bytes(row.push(c)) =~= Seq::<u8>::empty() + spec_cell_bytes(c));
    } else {
        assert(row.push(c).drop_first() =~= row.drop_first().push(c));
        lemma_row_bytes_snoc(row.drop_first(), c);
        assert(spec_cell_bytes(row[0]) + (spec_row_bytes(row.drop_first()) + spec_cell_bytes(c))
            =~= (spec_cell_bytes(row[0]) + spec_row_bytes(row.drop_first())) + spec_cell_bytes(c));
    }
}

/// A frame's bytes grow row by row.
pub proof fn lemma_frame_bytes_snoc(g: Seq<Seq<Cell>>, row: Seq<Cell>)
    ensures
        spec_frame_bytes(g.push(row)) == spec_frame_bytes(g) + spec_row_bytes(row),
    decreases g.len(),
{
    reveal_with_fuel(spec_frame_bytes, 3);
    if g.len() == 0 {
        assert(g.push(row).drop_first() =~= g);
        assert(spec_frame_bytes(g.push(row)) =~= Seq::<u8>::empty() + spec_row_bytes(row));
    } else {
        assert(g.push(row).drop_first() =~= g.drop_first().push(row));
        lemma_frame_bytes_snoc(g.drop_first(), row);
        assert(spec_row_bytes(g[0]) + (spec_frame_bytes(g.drop_first()) + spec_row_bytes(row))
            =~= (spec_row_bytes(g[0]) + spec_frame_bytes(g.drop_first())) + spec_row_bytes(row));
    }
}

/// Appends the style escape of `s` to `out`, nothing for `Normal`.
pub fn push_style_bytes(out: &mut Vec<u8>, s: Style)
    ensures
        final(out)@ == old(out)@ + spec_style_bytes(s),
{
    match s {
        Style::Normal => (),
        Style::Underline => {
            out.push(0x1b);
            out.push(0x5b);
            out.push(0x34);
            out.push(0x6d);
        },
        Style::Bold => {
            out.push(0x1b);
            out.push(0x5b);
            out.push(0x31);
            out.push(0x6d);
        },
        Style::Blink => {
            out.push(0x1b);
            out.push(0x5b);
            out.push(0x35);
            out.push(0x6d);
        },
        Style::Reverse => {
            out.push(0x1b);
            out.push(0x5b);
            out.push(0x37);
            out.push(0x6d);
        },
    }
    proof {
        assert(final(out)@ =~= old(out)@ + spec_style_bytes(s));
    }
}

/// Appends the foreground escape of `c` to `out`.
pub fn push_fg_bytes(out: &mut Vec<u8>, c: Color)
    ensures
        final(out)@ == old(out)@ + spec_fg_bytes(c),
{
    if let Color::Default = c {
        out.push(0x1b);
        out.push(0x5b);
        out.push(0x33);
        out.push(0x39);
        out.push(0x6d);
    } else {
        out.push(0x1b);
        out.push(0x5b);
        out.push(0x33);
        out.push(0x38);
        out.push(0x3b);
        out.push(0x35);
        out.push(0x3b);
        push_dec_bytes(out, c.as_256_color());
        out.push(0x6d);
    }
    proof {
        assert(final(out)@ =~= old(out)@ + spec_fg_bytes(c));
    }
}

/// Appends the background escape of `c` to `out`.
pub fn push_bg_bytes(out: &mut Vec<u8>, c: Color)
    ensures
        final(out)@ == old(out)@ + spec_bg_bytes(c),
{
    if let Color::Default = c {
        out.push(0x1b);
        out.push(0x5b);
        out.push(0x34);
        out.push(0x39);
        out.push(0x6d);
    } else {
        out.push(0x1b);
        out.push(0x5b);
        out.push(0x34);
        out.push(0x38);
        out.push(0x3b);
        out.push(0x35);
        out.push(0x3b);
        push_dec_bytes(out, c.as_256_color());
        out.push(0x6d);
    }
    proof {
        assert(final(out)@ =~= old(out)@ + spec_bg_bytes(c));
    }
}

/// Appends everything emitted for one cell to `out`.
pub fn push_cell_bytes(out: &mut Vec<u8>, c: &Cell)
    ensures
        final(out)@ == old(out)@ + spec_cell_bytes(*c),
{
    push_sgr0(out);
    push_style_bytes(out, c.style);
    push_fg_bytes(out, c.fg);
    push_bg_bytes(out, c.bg);
    push_utf8(out, c.ch);
    proof {
        assert(final(out)@ =~= old(out)@ + spec_cell_bytes(*c));
    }
}

/// Appends the full frame for `grid` to `out`: every cell, row-major.
pub fn render_frame(grid: &CellGrid, out: &mut Vec<u8>)
    requires
        grid.well_formed(),
    ensures
        final(out)@ == old(out)@ + spec_frame_bytes(grid.cells()),
{
    let ghost g = grid.cells();
    let height = grid.height() as usize;
    let mut y: usize = 0;
    proof {
        assert(g.take(0) =~= Seq::<Seq<Cell>>::empty());
    }
    while y < height
        invariant
            y <= height,
            height == g.len(),
            grid.well_formed(),
            g == grid.cells(),
            out@ == old(out)@ + spec_frame_bytes(g.take(y as int)),
        decreases height - y,
    {
        let row = grid.row(y);
        let width = row.len();
        let ghost rowseq = g[y as int];
        let mut x: usize = 0;
        let ghost out_at_row = out@;
        proof {
            assert(rowseq.take(0) =~= Seq::<Cell>::empty());
        }
        while x < width
            invariant
                x <= width,
                width == rowseq.len(),
                row@ == rowseq,
                out@ == out_at_row + spec_row_bytes(rowseq.take(x as int)),
            decreases width - x,
        {
            proof {
                lemma_row_bytes_snoc(rowseq.take(x as int), rowseq[x as int]);
                assert(rowseq.take(x as int).push(rowseq[x as int]) =~= rowseq.take(x as int + 1));
            }
            push_cell_bytes(out, &row[x]);
            proof {
                assert(out@ =~= out_at_row + spec_row_bytes(rowseq.take(x as int + 1)));
            }
            x = x + 1;
        }
        proof {
            assert(rowseq.take(rowseq.len() as int) =~= rowseq);
            lemma_frame_bytes_snoc(g.take(y as int), rowseq);
            assert(g.take(y as int).push(rowseq) =~= g.take(y as int + 1));
            assert(out@ =~= old(out)@ + spec_frame_bytes(g.take(y as int + 1)));
        }
        y = y + 1;
    }
    proof {
        assert(g.take(g.len() as int) =~= g);
    }
}

} // verus!
