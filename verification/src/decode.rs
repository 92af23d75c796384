//! The structural decoder for the rendered byte stream: it finds, per
//! cell, the attribute reset, the style and color escapes and the
//! character, in row-major order — the inverse of the renderer.

use vstd::prelude::*;
use vstd::utf8::{encode_scalar, char_is_scalar, char_u32_cast};
use crate::color::{Color, spec_color_code};
use crate::event::spec_is_scalar;
use crate::grid::Cell;
use crate::render::{
    spec_dec_bytes, spec_style_bytes, spec_fg_bytes, spec_bg_bytes, spec_cell_bytes,
    spec_row_bytes, spec_frame_bytes,
};
use crate::style::Style;

verus! {

/// A color as the byte stream shows it: the default-color escape, or a
/// numeric 256-color code. (Distinct `Color` values can share a code,
/// so the stream determines the code, not the constructor.)
#[derive(Clone, Copy, PartialEq, Eq, Structural, Debug)]
pub enum ColorCode {
    Default,
    Code(u16),
}

/// What the stream shows for one cell.
#[derive(Clone, Copy, PartialEq, Eq, Structural, Debug)]
pub struct DecodedCell {
    pub style: Style,
    pub fg: ColorCode,
    pub bg: ColorCode,
    pub ch: char,
}

/// The color code a color is rendered as.
pub open spec fn spec_code_of_color(c: Color) -> ColorCode {
    if c is Default {
        ColorCode::Default
    } else {
        ColorCode::Code(spec_color_code(c))
    }
}

/// What the stream shows for a given cell.
pub open spec fn spec_decoded_cell(c: Cell) -> DecodedCell {
    DecodedCell {
        style: c.style,
        fg: spec_code_of_color(c.fg),
        bg: spec_code_of_color(c.bg),
        ch: c.ch,
    }
}

/// A row of cells, as the stream shows them.
pub open spec fn spec_decoded_row(row: Seq<Cell>) -> Seq<DecodedCell> {
    row.map_values(|c: Cell| spec_decoded_cell(c))
}

/// A grid of cells row-major, as the stream shows them.
pub open spec fn spec_decoded_frame(g: Seq<Seq<Cell>>) -> Seq<DecodedCell>
    decreases g.len(),
{
    if g.len() == 0 {
        Seq::empty()
    } else {
        spec_decoded_row(g[0]) + spec_decoded_frame(g.drop_first())
    }
}

/// True for an ASCII decimal digit byte.
pub open spec fn spec_is_digit(b: u8) -> bool {
    0x30 <= b <= 0x39
}

/// Parses decimal digits terminated by `m`: the accumulated value and
/// the count of bytes consumed, terminator included. Fails at the end
/// of input, on a non-digit, and on a value that cannot be a rendered
/// 16-bit code.
pub open spec fn spec_parse_dec_m(bytes: Seq<u8>, acc: int) -> Option<(int, int)>
    decreases bytes.len(),
{
    if bytes.len() == 0 {
        None
    } else if bytes[0] == 0x6d {
        Some((acc, 1))
    } else if spec_is_digit(bytes[0]) && acc * 10 + (bytes[0] - 0x30) <= 0xffff {
        match spec_parse_dec_m(bytes.drop_first(), acc * 10 + (bytes[0] - 0x30)) {
            Some((v, k)) => Some((v, k + 1)),
            None => None,
        }
    } else {
        None
    }
}

/// Parses a style escape: `ESC[<n>m` with `n` one of 1, 4, 5, 7 is the
/// corresponding style; anything else is no style escape and consumes
/// nothing.
pub open spec fn spec_parse_style(bytes: Seq<u8>) -> (Style, int) {
    if bytes.len() >= 4 && bytes[0] == 0x1b && bytes[1] == 0x5b && bytes[3] == 0x6d {
        if bytes[2] == 0x31 {
            (Style::Bold, 4)
        } else if bytes[2] == 0x34 {
            (Style::Underline, 4)
        } else if bytes[2] == 0x35 {
            (Style::Blink, 4)
        } else if bytes[2] == 0x37 {
            (Style::Reverse, 4)
        } else {
            (Style::Normal, 0)
        }
    } else {
        (Style::Normal, 0)
    }
}

/// Parses a color escape introduced by `ESC[<intro>`: `9m` is the
/// default color, `8;5;<digits>m` a numeric code.
pub open spec fn spec_parse_color(bytes: Seq<u8>, intro: u8) -> Option<(ColorCode, int)> {
    if bytes.len() >= 5 && bytes[0] == 0x1b && bytes[1] == 0x5b && bytes[2] == intro {
        if bytes[3] == 0x39 && bytes[4] == 0x6d {
            Some((ColorCode::Default, 5))
        } else if bytes.len() >= 8 && bytes[3] == 0x38 && bytes[4] == 0x3b && bytes[5] == 0x35
            && bytes[6] == 0x3b && spec_is_digit(bytes[7]) {
            match spec_parse_dec_m(bytes.skip(7), 0) {
                Some((v, k)) => Some((ColorCode::Code(v as u16), 7 + k)),
                None => None,
            }
        } else {
            None
        }
    } else {
        None
    }
}

/// Parses one UTF-8 encoded character: the character and the count of
/// bytes consumed.
pub open spec fn spec_parse_char(bytes: Seq<u8>) -> Option<(char, int)> {
    if bytes.len() == 0 {
        None
    } else {
        let b0 = bytes[0];
        if b0 < 0x80 {
            let cp = b0 as u32;
            if spec_is_scalar(cp) {
                Some(((cp as char), 1))
            } else {
                None
            }
        } else if 0xc0 <= b0 <= 0xdf {
            if bytes.len() >= 2 && 0x80 <= bytes[1] <= 0xbf {
                let cp = (((b0 & 0x1f) as u32) << 6) | ((bytes[1] & 0x3f) as u32);
                if spec_is_scalar(cp) {
                    Some(((cp as char), 2))
                } else {
                    None
                }
            } else {
                None
            }
        } else if 0xe0 <= b0 <= 0xef {
            if bytes.len() >= 3 && 0x80 <= bytes[1] <= 0xbf && 0x80 <= bytes[2] <= 0xbf {
                let cp = (((b0 & 0x0f) as u32) << 12) | (((bytes[1] & 0x3f) as u32) << 6) | ((
                bytes[2] & 0x3f) as u32);
                if spec_is_scalar(cp) {
                    Some(((cp as char), 3))
                } else {
                    None
                }
            } else {
                None
            }
        } else if 0xf0 <= b0 <= 0xf7 {
            if bytes.len() >= 4 && 0x80 <= bytes[1] <= 0xbf && 0x80 <= bytes[2] <= 0xbf && 0x80
                <= bytes[3] <= 0xbf {
                let cp = (((b0 & 0x07) as u32) << 18) | (((bytes[1] & 0x3f) as u32) << 12) | (((
                bytes[2] & 0x3f) as u32) << 6) | ((bytes[3] & 0x3f) as u32);
                if spec_is_scalar(cp) {
                    Some(((cp as char), 4))
                } else {
                    None
                }
            } else {
                None
            }
        } else {
            None
        }
    }
}

/// Parses everything shown for one cell: reset, optional style escape,
/// foreground, background, character.
pub open spec fn spec_parse_cell(bytes: Seq<u8>) -> Option<(DecodedCell, int)> {
    if bytes.len() >= 4 && bytes[0] == 0x1b && bytes[1] == 0x5b && bytes[2] == 0x6d && bytes[3]
        == 0x0f {
        let rest1 = bytes.skip(4);
        let (style, k1) = spec_parse_style(rest1);
        match spec_parse_color(rest1.skip(k1), 0x33) {
            Some((fg, k2)) => match spec_parse_color(rest1.skip(k1 + k2), 0x34) {
                Some((bg, k3)) => match spec_parse_char(rest1.skip(k1 + k2 + k3)) {
                    Some((ch, k4)) => Some(
                        (DecodedCell { style, fg, bg, ch }, 4 + k1 + k2 + k3 + k4),
                    ),
                    None => None,
                },
                None => None,
            },
            None => None,
        }
    } else {
        None
    }
}

/// Parses a whole frame: the cells it shows, in order. Fails when any
/// cell fails or bytes are left over that no cell consumes.
pub open spec fn spec_parse_frame(bytes: Seq<u8>) -> Option<Seq<DecodedCell>>
    decreases bytes.len(),
{
    if bytes.len() == 0 {
        Some(Seq::empty())
    } else {
        match spec_parse_cell(bytes) {
            Some((c, k)) => {
                if 0 < k <= bytes.len() {
                    match spec_parse_frame(bytes.skip(k)) {
                        Some(cs) => Some(seq![c] + cs),
                        None => None,
                    }
                } else {
                    None
                }
            },
            None => None,
        }
    }
}

/// Ten to the power of the digit count of `n`.
pub open spec fn spec_pow10_digits(n: int) -> int
    decreases n,
{
    if n < 10 {
        10
    } else {
        10 * spec_pow10_digits(n / 10)
    }
}

/// Every byte of a rendered decimal is a digit.
pub proof fn lemma_dec_bytes_digits(n: int)
    requires
        0 <= n,
    ensures
        spec_dec_bytes(n as nat).len() >= 1,
        forall|i: int|
            0 <= i < spec_dec_bytes(n as nat).len() ==> spec_is_digit(
                #[trigger] spec_dec_bytes(n as nat)[i],
            ),
    decreases n,
{
    if n >= 10 {
        lemma_dec_bytes_digits(n / 10);
    }
}

/// Parsing a rendered decimal consumes exactly its digits and shifts
/// the accumulator past them.
pub proof fn lemma_parse_dec_rt(n: int, tail: Seq<u8>, acc: int)
    requires
        0 <= n,
        0 <= acc,
        acc * spec_pow10_digits(n) + n <= 0xffff,
    ensures
        spec_parse_dec_m(spec_dec_bytes(n as nat) + tail, acc) == (match spec_parse_dec_m(
            tail,
            acc * spec_pow10_digits(n) + n,
        ) {
            Some((v, k)) => Some((v, k + spec_dec_bytes(n as nat).len())),
            None => None::<(int, int)>,
        }),
    decreases n,
{
    lemma_dec_bytes_digits(n);
    if n < 10 {
        let s = spec_dec_bytes(n as nat) + tail;
        assert(s[0] == (0x30 + n) as u8);
        assert(s[0] != 0x6d && spec_is_digit(s[0]));
        assert(s[0] - 0x30 == n);
        assert(acc * 10 + n <= 0xffff);
        assert(s.drop_first() =~= tail);
    } else {
        let d = (0x30 + n % 10) as u8;
        let head = spec_dec_bytes((n / 10) as nat);
        assert(spec_dec_bytes(n as nat) =~= head.push(d));
        assert(spec_dec_bytes(n as nat) + tail =~= head + (seq![d] + tail));
        let p1 = spec_pow10_digits(n / 10);
        let mid = acc * p1 + n / 10;
        assert(spec_pow10_digits(n) == 10 * p1);
        assert(mid * 10 + n % 10 == acc * (10 * p1) + n) by (nonlinear_arith)
            requires
                mid == acc * p1 + n / 10,
                n >= 10,
                n / 10 * 10 + n % 10 == n,
        ;
        assert(n / 10 * 10 + n % 10 == n);
        assert(p1 >= 10) by {
            lemma_pow10_digits_pos(n / 10);
        }
        assert(mid >= 0) by (nonlinear_arith)
            requires
                acc >= 0,
                p1 >= 10,
                n >= 10,
                mid == acc * p1 + n / 10,
        ;
        assert(mid * spec_pow10_digits(n % 10) + n % 10 <= 0xffff) by {
            assert(spec_pow10_digits(n % 10) == 10);
            assert(mid * 10 + n % 10 <= 0xffff);
        }
        assert(mid <= 0xffff) by (nonlinear_arith)
            requires
                mid >= 0,
                mid * 10 + n % 10 <= 0xffff,
                n % 10 >= 0,
        ;
        lemma_parse_dec_rt(n / 10, seq![d] + tail, acc);
        // After the leading digits, the last digit and the tail remain.
        lemma_parse_dec_rt(n % 10, tail, mid);
        assert(spec_dec_bytes((n % 10) as nat) =~= seq![d]);
        assert(spec_dec_bytes((n % 10) as nat) + tail =~= seq![d] + tail);
    }
}

/// The power-of-ten helper is at least ten.
pub proof fn lemma_pow10_digits_pos(n: int)
    ensures
        spec_pow10_digits(n) >= 10,
    decreases n,
{
    if n >= 10 {
        lemma_pow10_digits_pos(n / 10);
    }
}

/// The style parse finds exactly the rendered style escape: the
/// foreground escape that follows can never pass for one.
pub proof fn lemma_parse_style_rt(s: Style, fgc: Color, rest: Seq<u8>)
    ensures
        spec_parse_style(spec_style_bytes(s) + (spec_fg_bytes(fgc) + rest)) == (
        s,
        spec_style_bytes(s).len() as int,
        ),
{
    let bytes = spec_style_bytes(s) + (spec_fg_bytes(fgc) + rest);
    if s is Normal {
        assert(bytes =~= spec_fg_bytes(fgc) + rest);
        assert(bytes[2] == 0x33);
    } else {
        assert(bytes[0] == 0x1b && bytes[1] == 0x5b && bytes[3] == 0x6d);
    }
}

/// The foreground parse finds exactly the rendered foreground escape:
/// the default marker, or the color's numeric code.
pub proof fn lemma_parse_fg_rt(c: Color, rest: Seq<u8>)
    ensures
        spec_parse_color(spec_fg_bytes(c) + rest, 0x33) == Some(
            (spec_code_of_color(c), spec_fg_bytes(c).len() as int),
        ),
{
    let bytes = spec_fg_bytes(c) + rest;
    if c is Default {
    } else {
        let n = spec_color_code(c) as int;
        let pre = seq![0x1bu8, 0x5b, 0x33, 0x38, 0x3b, 0x35, 0x3b];
        assert(bytes =~= pre + (spec_dec_bytes(n as nat) + (seq![0x6du8] + rest)));
        lemma_dec_bytes_digits(n);
        assert(bytes.skip(7) =~= spec_dec_bytes(n as nat) + (seq![0x6du8] + rest));
        assert(bytes[7] == spec_dec_bytes(n as nat)[0]);
        lemma_parse_dec_rt(n, seq![0x6du8] + rest, 0);
        assert(0 * spec_pow10_digits(n) + n == n);
        assert((seq![0x6du8] + rest)[0] == 0x6d);
        assert(spec_parse_dec_m(seq![0x6du8] + rest, n) == Some((n, 1int)));
        assert(spec_parse_dec_m(bytes.skip(7), 0) == Some(
            (n, 1 + spec_dec_bytes(n as nat).len() as int),
        ));
        assert(n as u16 == spec_color_code(c));
    }
}

/// The background parse finds exactly the rendered background escape.
pub proof fn lemma_parse_bg_rt(c: Color, rest: Seq<u8>)
    ensures
        spec_parse_color(spec_bg_bytes(c) + rest, 0x34) == Some(
            (spec_code_of_color(c), spec_bg_bytes(c).len() as int),
        ),
{
    let bytes = spec_bg_bytes(c) + rest;
    if c is Default {
    } else {
        let n = spec_color_code(c) as int;
        let pre = seq![0x1bu8, 0x5b, 0x34, 0x38, 0x3b, 0x35, 0x3b];
        assert(bytes =~= pre + (spec_dec_bytes(n as nat) + (seq![0x6du8] + rest)));
        lemma_dec_bytes_digits(n);
        assert(bytes.skip(7) =~= spec_dec_bytes(n as nat) + (seq![0x6du8] + rest));
        assert(bytes[7] == spec_dec_bytes(n as nat)[0]);
        lemma_parse_dec_rt(n, seq![0x6du8] + rest, 0);
        assert(0 * spec_pow10_digits(n) + n == n);
        assert((seq![0x6du8] + rest)[0] == 0x6d);
        assert(spec_parse_dec_m(seq![0x6du8] + rest, n) == Some((n, 1int)));
        assert(spec_parse_dec_m(bytes.skip(7), 0) == Some(
            (n, 1 + spec_dec_bytes(n as nat).len() as int),
        ));
        assert(n as u16 == spec_color_code(c));
    }
}

/// The character parse recovers exactly the rendered character from
/// its UTF-8 bytes, whatever follows them.
pub proof fn lemma_parse_char_rt(c: char, rest: Seq<u8>)
    ensures
        spec_parse_char(encode_scalar(c as u32) + rest) == Some(
            (c, encode_scalar(c as u32).len() as int),
        ),
{
    char_is_scalar(c);
    let s = c as u32;
    let bytes = encode_scalar(s) + rest;
    if s <= 0x7f {
        let b0 = vstd::utf8::leading_byte_width_1(s);
        assert(b0 < 0x80 && (b0 as u32) == s) by (bit_vector)
            requires
                b0 == (s & 0x7f) as u8,
                s <= 0x7f,
        ;
        assert(bytes[0] == b0);
        char_u32_cast(c, b0 as u32);
    } else if s <= 0x7ff {
        let b0 = vstd::utf8::leading_byte_width_2(s);
        let b1 = vstd::utf8::last_continuation_byte(s);
        assert(0xc0 <= b0 <= 0xdf && 0x80 <= b1 <= 0xbf && ((((b0 & 0x1f) as u32) << 6) | ((b1
            & 0x3f) as u32)) == s) by (bit_vector)
            requires
                b0 == 0xc0 | (((s >> 6) & 0x1f) as u8),
                b1 == 0x80 | ((s & 0x3f) as u8),
                0x80 <= s <= 0x7ff,
        ;
        assert(bytes[0] == b0 && bytes[1] == b1);
        char_u32_cast(c, s);
    } else if s <= 0xffff {
        let b0 = vstd::utf8::leading_byte_width_3(s);
        let b1 = vstd::utf8::second_last_continuation_byte(s);
        let b2 = vstd::utf8::last_continuation_byte(s);
        assert(0xe0 <= b0 <= 0xef && 0x80 <= b1 <= 0xbf && 0x80 <= b2 <= 0xbf && ((((b0
            & 0x0f) as u32) << 12) | (((b1 & 0x3f) as u32) << 6) | ((b2 & 0x3f) as u32)) == s)
            by (bit_vector)
            requires
                b0 == 0xe0 | (((s >> 12) & 0x0f) as u8),
                b1 == 0x80 | (((s >> 6) & 0x3f) as u8),
                b2 == 0x80 | ((s & 0x3f) as u8),
                0x800 <= s <= 0xffff,
        ;
        assert(bytes[0] == b0 && bytes[1] == b1 && bytes[2] == b2);
        char_u32_cast(c, s);
    } else {
        let b0 = vstd::utf8::leading_byte_width_4(s);
        let b1 = vstd::utf8::third_last_continuation_byte(s);
        let b2 = vstd::utf8::second_last_continuation_byte(s);
        let b3 = vstd::utf8::last_continuation_byte(s);
        assert(0xf0 <= b0 <= 0xf7 && 0x80 <= b1 <= 0xbf && 0x80 <= b2 <= 0xbf && 0x80 <= b3
            <= 0xbf && ((((b0 & 0x07) as u32) << 18) | (((b1 & 0x3f) as u32) << 12) | (((b2
            & 0x3f) as u32) << 6) | ((b3 & 0x3f) as u32)) == s) by (bit_vector)
            requires
                b0 == 0xf0 | (((s >> 18) & 0x7) as u8),
                b1 == 0x80 | (((s >> 12) & 0x3f) as u8),
                b2 == 0x80 | (((s >> 6) & 0x3f) as u8),
                b3 == 0x80 | ((s & 0x3f) as u8),
                0x10000 <= s <= 0x10ffff,
        ;
        assert(bytes[0] == b0 && bytes[1] == b1 && bytes[2] == b2 && bytes[3] == b3);
        char_u32_cast(c, s);
    }
}

/// Skipping a concatenation's first part leaves its second part.
pub proof fn lemma_drop_prefix(a: Seq<u8>, b: Seq<u8>)
    ensures
        (a + b).skip(a.len() as int) == b,
{
    assert((a + b).skip(a.len() as int) =~= b);
}

/// The cell parse finds exactly what the renderer emitted for the
/// cell — reset, style, colors, character — and lands on the next cell.
#[verifier::rlimit(60)]
pub proof fn lemma_parse_cell_rt(c: Cell, rest: Seq<u8>)
    ensures
        spec_parse_cell(spec_cell_bytes(c) + rest) == Some(
            (spec_decoded_cell(c), spec_cell_bytes(c).len() as int),
        ),
{
    let st = spec_style_bytes(c.style);
    let fg = spec_fg_bytes(c.fg);
    let bg = spec_bg_bytes(c.bg);
    let ut = encode_scalar(c.ch as u32);
    let tail2 = bg + (ut + rest);
    let tail1 = fg + tail2;
    let y = st + tail1;
    let bytes = spec_cell_bytes(c) + rest;
    assert(bytes =~= crate::termcodes::spec_sgr0() + y);
    assert(bytes[0] == 0x1b && bytes[1] == 0x5b && bytes[2] == 0x6d && bytes[3] == 0x0f);
    lemma_drop_prefix(crate::termcodes::spec_sgr0(), y);
    let rest1 = bytes.skip(4);
    assert(rest1 == y);
    let k1 = st.len() as int;
    let k2 = fg.len() as int;
    let k3 = bg.len() as int;
    let k4 = ut.len() as int;
    lemma_parse_style_rt(c.style, c.fg, tail2);
    assert(spec_parse_style(rest1) == (c.style, k1));
    lemma_drop_prefix(st, tail1);
    assert(rest1.skip(k1) == tail1);
    lemma_parse_fg_rt(c.fg, tail2);
    assert(spec_parse_color(rest1.skip(k1), 0x33) == Some((spec_code_of_color(c.fg), k2)));
    lemma_drop_prefix(fg, tail2);
    assert(rest1.skip(k1 + k2) =~= rest1.skip(k1).skip(k2));
    assert(rest1.skip(k1 + k2) == tail2);
    lemma_parse_bg_rt(c.bg, ut + rest);
    assert(spec_parse_color(rest1.skip(k1 + k2), 0x34) == Some((spec_code_of_color(c.bg), k3)));
    lemma_drop_prefix(bg, ut + rest);
    assert(rest1.skip(k1 + k2 + k3) =~= rest1.skip(k1 + k2).skip(k3));
    assert(rest1.skip(k1 + k2 + k3) == ut + rest);
    lemma_parse_char_rt(c.ch, rest);
    assert(spec_parse_char(rest1.skip(k1 + k2 + k3)) == Some((c.ch, k4)));
    assert(spec_cell_bytes(c).len() == 4 + k1 + k2 + k3 + k4);
}

/// Decoding continues past a rendered row exactly at its cells.
pub proof fn lemma_parse_row_rt(row: Seq<Cell>, rest: Seq<u8>)
    ensures
        spec_parse_frame(spec_row_bytes(row) + rest) == (match spec_parse_frame(rest) {
            Some(cs) => Some(spec_decoded_row(row) + cs),
            None => None::<Seq<DecodedCell>>,
        }),
    decreases row.len(),
{
    if row.len() == 0 {
        assert(spec_row_bytes(row) + rest =~= rest);
        if let Some(cs) = spec_parse_frame(rest) {
            assert(spec_decoded_row(row) + cs =~= cs);
        }
    } else {
        let c0 = row[0];
        let row1 = row.drop_first();
        let bytes = spec_row_bytes(row) + rest;
        assert(bytes =~= spec_cell_bytes(c0) + (spec_row_bytes(row1) + rest));
        lemma_parse_cell_rt(c0, spec_row_bytes(row1) + rest);
        let k = spec_cell_bytes(c0).len() as int;
        assert(spec_cell_bytes(c0).len() >= 4);
        assert(0 < k <= bytes.len());
        lemma_drop_prefix(spec_cell_bytes(c0), spec_row_bytes(row1) + rest);
        assert(bytes.skip(k) == spec_row_bytes(row1) + rest);
        lemma_parse_row_rt(row1, rest);
        if let Some(cs) = spec_parse_frame(rest) {
            assert(spec_parse_frame(bytes.skip(k)) == Some(spec_decoded_row(row1) + cs));
            assert(seq![spec_decoded_cell(c0)] + (spec_decoded_row(row1) + cs)
                =~= spec_decoded_row(row) + cs);
        }
    }
}

/// Decoding what the renderer emitted for a grid finds exactly the
/// grid's cells — one reset, the style and color escapes and the
/// character per cell — in row-major order.
pub proof fn lemma_frame_round_trip(g: Seq<Seq<Cell>>)
    ensures
        spec_parse_frame(spec_frame_bytes(g)) == Some(spec_decoded_frame(g)),
    decreases g.len(),
{
    if g.len() == 0 {
    } else {
        lemma_frame_round_trip(g.drop_first());
        lemma_parse_row_rt(g[0], spec_frame_bytes(g.drop_first()));
    }
}

/// A successful decimal parse consumed at least the terminator, at
/// most the input, and yielded a 16-bit value.
pub proof fn lemma_parse_dec_m_bounds(bytes: Seq<u8>, acc: int)
    requires
        0 <= acc <= 0xffff,
    ensures
        spec_parse_dec_m(bytes, acc) matches Some((v, k)) ==> 1 <= k <= bytes.len() && 0 <= v
            <= 0xffff,
    decreases bytes.len(),
{
    if bytes.len() == 0 {
    } else if bytes[0] == 0x6d {
    } else if spec_is_digit(bytes[0]) && acc * 10 + (bytes[0] - 0x30) <= 0xffff {
        lemma_parse_dec_m_bounds(bytes.drop_first(), acc * 10 + (bytes[0] - 0x30));
    }
}

/// Parses a style escape at `pos`.
fn parse_style_at(bytes: &[u8], pos: usize) -> (r: (Style, usize))
    requires
        pos <= bytes@.len(),
    ensures
        r.0 == spec_parse_style(bytes@.skip(pos as int)).0,
        r.1 == spec_parse_style(bytes@.skip(pos as int)).1,
        r.1 <= bytes@.len() - pos,
        r.1 <= 4,
{
    if bytes.len() - pos >= 4 && bytes[pos] == 0x1b && bytes[pos + 1] == 0x5b && bytes[pos + 3]
        == 0x6d {
        match bytes[pos + 2] {
            0x31 => (Style::Bold, 4),
            0x34 => (Style::Underline, 4),
            0x35 => (Style::Blink, 4),
            0x37 => (Style::Reverse, 4),
            _ => (Style::Normal, 0),
        }
    } else {
        (Style::Normal, 0)
    }
}

/// Parses decimal digits terminated by `m` at `pos`, with `acc` the
/// value of the digits already read.
fn parse_dec_at(bytes: &[u8], pos: usize, acc: u16) -> (r: Option<(u16, usize)>)
    requires
        pos <= bytes@.len(),
    ensures
        match spec_parse_dec_m(bytes@.skip(pos as int), acc as int) {
            Some((v, k)) => r matches Some(p) && p.0 == v && p.1 == k && p.1 <= bytes@.len()
                - pos,
            None => r is None,
        },
    decreases bytes@.len() - pos,
{
    proof {
        lemma_parse_dec_m_bounds(bytes@.skip(pos as int), acc as int);
    }
    if pos == bytes.len() {
        return None;
    }
    let b = bytes[pos];
    if b == 0x6d {
        Some((acc, 1))
    } else if 0x30 <= b && b <= 0x39 {
        let next: u32 = (acc as u32) * 10 + (b - 0x30) as u32;
        if next <= 0xffff {
            proof {
                assert(bytes@.skip(pos as int).drop_first() =~= bytes@.skip(pos as int + 1));
            }
            match parse_dec_at(bytes, pos + 1, next as u16) {
                Some(p) => Some((p.0, p.1 + 1)),
                None => None,
            }
        } else {
            None
        }
    } else {
        None
    }
}

/// Parses a color escape introduced by `ESC[<intro>` at `pos`.
fn parse_color_at(bytes: &[u8], pos: usize, intro: u8) -> (r: Option<(ColorCode, usize)>)
    requires
        pos <= bytes@.len(),
    ensures
        match spec_parse_color(bytes@.skip(pos as int), intro) {
            Some((c, k)) => r matches Some(p) && p.0 == c && p.1 == k && p.1 <= bytes@.len()
                - pos,
            None => r is None,
        },
{
    if bytes.len() - pos >= 5 && bytes[pos] == 0x1b && bytes[pos + 1] == 0x5b && bytes[pos + 2]
        == intro {
        if bytes[pos + 3] == 0x39 && bytes[pos + 4] == 0x6d {
            Some((ColorCode::Default, 5))
        } else if bytes.len() - pos >= 8 && bytes[pos + 3] == 0x38 && bytes[pos + 4] == 0x3b
            && bytes[pos + 5] == 0x35 && bytes[pos + 6] == 0x3b && 0x30 <= bytes[pos + 7]
            && bytes[pos + 7] <= 0x39 {
            proof {
                assert(bytes@.skip(pos as int).skip(7) =~= bytes@.skip(pos as int + 7));
                lemma_parse_dec_m_bounds(bytes@.skip(pos as int + 7), 0);
            }
            match parse_dec_at(bytes, pos + 7, 0) {
                Some(p) => Some((ColorCode::Code(p.0), 7 + p.1)),
                None => None,
            }
        } else {
            None
        }
    } else {
        None
    }
}

/// Parses one UTF-8 encoded character at `pos`.
fn parse_char_at(bytes: &[u8], pos: usize) -> (r: Option<(char, usize)>)
    requires
        pos <= bytes@.len(),
    ensures
        match spec_parse_char(bytes@.skip(pos as int)) {
            Some((c, k)) => r matches Some(p) && p.0 == c && p.1 == k && p.1 <= bytes@.len()
                - pos,
            None => r is None,
        },
{
    if pos == bytes.len() {
        return None;
    }
    let b0 = bytes[pos];
    if b0 < 0x80 {
        match char::from_u32(b0 as u32) {
            Some(c) => Some((c, 1)),
            None => None,
        }
    } else if 0xc0 <= b0 && b0 <= 0xdf {
        if bytes.len() - pos >= 2 && 0x80 <= bytes[pos + 1] && bytes[pos + 1] <= 0xbf {
            let cp = (((b0 & 0x1f) as u32) << 6) | ((bytes[pos + 1] & 0x3f) as u32);
            match char::from_u32(cp) {
                Some(c) => Some((c, 2)),
                None => None,
            }
        } else {
            None
        }
    } else if 0xe0 <= b0 && b0 <= 0xef {
        if bytes.len() - pos >= 3 && 0x80 <= bytes[pos + 1] && bytes[pos + 1] <= 0xbf && 0x80
            <= bytes[pos + 2] && bytes[pos + 2] <= 0xbf {
            let cp = (((b0 & 0x0f) as u32) << 12) | (((bytes[pos + 1] & 0x3f) as u32) << 6) | ((
            bytes[pos + 2] & 0x3f) as u32);
            match char::from_u32(cp) {
                Some(c) => Some((c, 3)),
                None => None,
            }
        } else {
            None
        }
    } else if 0xf0 <= b0 && b0 <= 0xf7 {
        if bytes.len() - pos >= 4 && 0x80 <= bytes[pos + 1] && bytes[pos + 1] <= 0xbf && 0x80
            <= bytes[pos + 2] && bytes[pos + 2] <= 0xbf && 0x80 <= bytes[pos + 3] && bytes[pos + 3]
            <= 0xbf {
            let cp = (((b0 & 0x07) as u32) << 18) | (((bytes[pos + 1] & 0x3f) as u32) << 12) | (((
            bytes[pos + 2] & 0x3f) as u32) << 6) | ((bytes[pos + 3] & 0x3f) as u32);
            match char::from_u32(cp) {
                Some(c) => Some((c, 4)),
                None => None,
            }
        } else {
            None
        }
    } else {
        None
    }
}

/// Parses everything shown for one cell at `pos`.
#[verifier::rlimit(100)]
#[verifier::spinoff_prover]
fn parse_cell_at(bytes: &[u8], pos: usize) -> (r: Option<(DecodedCell, usize)>)
    requires
        pos <= bytes@.len(),
    ensures
        match spec_parse_cell(bytes@.skip(pos as int)) {
            Some((c, k)) => r matches Some(p) && p.0 == c && p.1 == k,
            None => r is None,
        },
{
    let ghost rest0 = bytes@.skip(pos as int);
    if bytes.len() - pos >= 4 && bytes[pos] == 0x1b && bytes[pos + 1] == 0x5b && bytes[pos + 2]
        == 0x6d && bytes[pos + 3] == 0x0f {
        proof {
            assert(rest0.skip(4) =~= bytes@.skip(pos as int + 4));
        }
        let (style, k1) = parse_style_at(bytes, pos + 4);
        proof {
            assert(rest0.skip(4).skip(k1 as int) =~= bytes@.skip(pos as int + 4 + k1 as int));
            assert(rest0.skip(4 + k1 as int) =~= rest0.skip(4).skip(k1 as int));
        }
        match parse_color_at(bytes, pos + 4 + k1, 0x33) {
            Some((fg, k2)) => {
                proof {
                    assert(rest0.skip(4).skip(k1 as int + k2 as int) =~= bytes@.skip(
                        pos as int + 4 + k1 as int + k2 as int,
                    ));
                }
                match parse_color_at(bytes, pos + 4 + k1 + k2, 0x34) {
                    Some((bg, k3)) => {
                        proof {
                            assert(rest0.skip(4).skip(k1 as int + k2 as int + k3 as int)
                                =~= bytes@.skip(
                                pos as int + 4 + k1 as int + k2 as int + k3 as int,
                            ));
                        }
                        match parse_char_at(bytes, pos + 4 + k1 + k2 + k3) {
                            Some((ch, k4)) => Some(
                                (DecodedCell { style, fg, bg, ch }, 4 + k1 + k2 + k3 + k4),
                            ),
                            None => None,
                        }
                    },
                    None => None,
                }
            },
            None => None,
        }
    } else {
        None
    }
}

/// Decodes a rendered byte stream structurally: the cells it shows in
/// row-major order, or `None` when the stream is not a whole number of
/// well-formed cells.
pub fn decode_frame(bytes: &[u8]) -> (r: Option<Vec<DecodedCell>>)
    ensures
        match r {
            Some(v) => spec_parse_frame(bytes@) == Some(v@),
            None => spec_parse_frame(bytes@) is None,
        },
{
    let mut out: Vec<DecodedCell> = Vec::new();
    let mut pos: usize = 0;
    proof {
        assert(bytes@.skip(0) =~= bytes@);
    }
    while pos < bytes.len()
        invariant
            pos <= bytes@.len(),
            match spec_parse_frame(bytes@.skip(pos as int)) {
                Some(cs) => spec_parse_frame(bytes@) == Some(out@ + cs),
                None => spec_parse_frame(bytes@) is None,
            },
        decreases bytes@.len() - pos,
    {
        match parse_cell_at(bytes, pos) {
            Some((c, k)) => {
                if k == 0 || k > bytes.len() - pos {
                    return None;
                }
                proof {
                    assert(bytes@.skip(pos as int).skip(k as int) =~= bytes@.skip(
                        pos as int + k as int,
                    ));
                }
                let ghost pre = out@;
                out.push(c);
                proof {
                    if let Some(cs) = spec_parse_frame(bytes@.skip(pos as int + k as int)) {
                        assert(pre + (seq![c] + cs) =~= out@ + cs);
                    }
                }
                pos = pos + k;
            },
            None => {
                return None;
            },
        }
    }
    proof {
        assert(bytes@.skip(pos as int) =~= Seq::<u8>::empty());
        assert(out@ + Seq::<DecodedCell>::empty() =~= out@);
    }
    Some(out)
}

} // verus!
