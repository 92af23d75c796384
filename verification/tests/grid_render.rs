use rustbox::color::Color;
use rustbox::decode::{decode_frame, ColorCode, DecodedCell};
use rustbox::grid::{Cell, CellGrid};
use rustbox::render::render_frame;
use rustbox::style::Style;

#[test]
fn grid_starts_with_default_cells() {
    let g = CellGrid::new(3, 2);
    assert_eq!(g.width(), 3);
    assert_eq!(g.height(), 2);
    for y in 0..2 {
        for x in 0..3 {
            let c = g.get_cell(x, y).unwrap();
            assert_eq!(c.ch, ' ');
            assert_eq!(c.fg, Color::Default);
            assert_eq!(c.bg, Color::Default);
            assert_eq!(c.style, Style::Normal);
        }
    }
}

#[test]
fn set_cell_writes_exactly_one_cell() {
    let mut g = CellGrid::new(3, 2);
    assert!(g.set_cell(1, 1, Style::Bold, Color::Red, Color::Blue, 'q').is_ok());
    let c = g.get_cell(1, 1).unwrap();
    assert_eq!(c.ch, 'q');
    assert_eq!(c.fg, Color::Red);
    assert_eq!(c.bg, Color::Blue);
    assert_eq!(c.style, Style::Bold);
    // No other cell changed.
    for y in 0..2 {
        for x in 0..3 {
            if (x, y) != (1, 1) {
                let c = g.get_cell(x, y).unwrap();
                assert_eq!(c.ch, ' ');
                assert_eq!(c.fg, Color::Default);
            }
        }
    }
}

#[test]
fn set_cell_out_of_bounds_fails_and_changes_nothing() {
    let mut g = CellGrid::new(3, 2);
    let e = g.set_cell(3, 0, Style::Normal, Color::Red, Color::Red, 'x');
    assert!(e.is_err());
    let e = g.set_cell(0, 2, Style::Normal, Color::Red, Color::Red, 'x');
    assert!(e.is_err());
    assert!(g.get_cell(3, 0).is_none());
    for y in 0..2 {
        for x in 0..3 {
            assert_eq!(g.get_cell(x, y).unwrap().ch, ' ');
        }
    }
}

#[test]
fn clear_resets_every_cell() {
    let mut g = CellGrid::new(2, 2);
    let _ = g.set_cell(0, 0, Style::Bold, Color::Red, Color::Blue, 'z');
    g.clear();
    for y in 0..2 {
        for x in 0..2 {
            let c = g.get_cell(x, y).unwrap();
            assert_eq!(c.ch, ' ');
            assert_eq!(c.style, Style::Normal);
        }
    }
}

#[test]
fn frame_bytes_for_one_default_cell() {
    let g = CellGrid::new(1, 1);
    let mut out: Vec<u8> = Vec::new();
    render_frame(&g, &mut out);
    assert_eq!(out, b"\x1b[m\x0f\x1b[39m\x1b[49m ");
}

#[test]
fn frame_bytes_for_styled_colored_cell() {
    let mut g = CellGrid::new(1, 1);
    let _ = g.set_cell(0, 0, Style::Bold, Color::Red, Color::Byte(123), 'A');
    let mut out: Vec<u8> = Vec::new();
    render_frame(&g, &mut out);
    assert_eq!(out, b"\x1b[m\x0f\x1b[1m\x1b[38;5;1m\x1b[48;5;123m\x41");
}

#[test]
fn frame_encodes_non_ascii_characters_as_utf8() {
    let mut g = CellGrid::new(1, 1);
    let _ = g.set_cell(0, 0, Style::Normal, Color::Default, Color::Default, '\u{e9}');
    let mut out: Vec<u8> = Vec::new();
    render_frame(&g, &mut out);
    let mut expected: Vec<u8> = b"\x1b[m\x0f\x1b[39m\x1b[49m".to_vec();
    expected.extend_from_slice("\u{e9}".as_bytes());
    assert_eq!(out, expected);
}

fn dc(style: Style, fg: ColorCode, bg: ColorCode, ch: char) -> DecodedCell {
    DecodedCell { style, fg, bg, ch }
}

#[test]
fn round_trip_decodes_every_cell_row_major() {
    let mut g = CellGrid::new(2, 2);
    let _ = g.set_cell(0, 0, Style::Bold, Color::Red, Color::Default, 'a');
    let _ = g.set_cell(1, 0, Style::Normal, Color::Default, Color::White, '\u{e9}');
    let _ = g.set_cell(0, 1, Style::Reverse, Color::Byte(999), Color::Black, '\u{20ac}');
    let _ = g.set_cell(1, 1, Style::Underline, Color::Cyan, Color::Byte(0), '\u{1f600}');
    let mut out: Vec<u8> = Vec::new();
    render_frame(&g, &mut out);
    let cells = decode_frame(&out).unwrap();
    assert_eq!(
        cells,
        vec![
            dc(Style::Bold, ColorCode::Code(1), ColorCode::Default, 'a'),
            dc(Style::Normal, ColorCode::Default, ColorCode::Code(7), '\u{e9}'),
            dc(Style::Reverse, ColorCode::Code(999), ColorCode::Code(0), '\u{20ac}'),
            dc(Style::Underline, ColorCode::Code(6), ColorCode::Code(0), '\u{1f600}'),
        ]
    );
}

#[test]
fn round_trip_empty_grid() {
    let g = CellGrid::new(0, 0);
    let mut out: Vec<u8> = Vec::new();
    render_frame(&g, &mut out);
    assert!(out.is_empty());
    assert_eq!(decode_frame(&out), Some(vec![]));
}

#[test]
fn decode_rejects_malformed_streams() {
    assert_eq!(decode_frame(b"garbage"), None);
    // A truncated cell fails too.
    assert_eq!(decode_frame(b"\x1b[m\x0f\x1b[39m"), None);
}

#[test]
fn decode_is_indifferent_to_sgr_like_characters() {
    // A cell whose character is itself the ESC byte still decodes.
    let mut g = CellGrid::new(2, 1);
    let _ = g.set_cell(0, 0, Style::Normal, Color::Default, Color::Default, '\u{1b}');
    let _ = g.set_cell(1, 0, Style::Normal, Color::Default, Color::Default, 'z');
    let mut out: Vec<u8> = Vec::new();
    render_frame(&g, &mut out);
    let cells = decode_frame(&out).unwrap();
    assert_eq!(cells.len(), 2);
    assert_eq!(cells[0].ch, '\u{1b}');
    assert_eq!(cells[1].ch, 'z');
}

#[test]
fn cell_default_constructor() {
    let c = Cell::default_cell();
    assert_eq!(c.ch, ' ');
    assert_eq!(c.fg, Color::Default);
    assert_eq!(c.bg, Color::Default);
    assert_eq!(c.style, Style::Normal);
}
