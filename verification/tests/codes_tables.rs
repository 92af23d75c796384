use rustbox::attributes;
use rustbox::color::Color;
use rustbox::event::{unpack_event, Event, EventError, InitError, RawEvent};
use rustbox::keyboard::Key;
use rustbox::mouse::Mouse;
use rustbox::style::Style;
use rustbox::termcodes;

#[test]
fn key_code_table_matches_documented_keys() {
    let cases: Vec<(u16, Key)> = vec![
        (1, Key::Ctrl('a')),
        (8, Key::Ctrl('h')),
        (9, Key::Tab),
        (10, Key::Ctrl('j')),
        (13, Key::Enter),
        (26, Key::Ctrl('z')),
        (27, Key::Esc),
        (28, Key::Ctrl('\\')),
        (29, Key::Ctrl(']')),
        (30, Key::Ctrl('6')),
        (31, Key::Ctrl('/')),
        (32, Key::Char(' ')),
        (127, Key::Backspace),
        (65514, Key::Right),
        (65515, Key::Left),
        (65516, Key::Down),
        (65517, Key::Up),
        (65535, Key::F(1)),
        (65534, Key::F(2)),
        (65524, Key::F(12)),
        (65523, Key::Insert),
        (65522, Key::Delete),
        (65521, Key::Home),
        (65520, Key::End),
        (65519, Key::PageUp),
        (65518, Key::PageDown),
    ];
    for (code, key) in cases {
        assert_eq!(Key::from_code(code), Some(key));
    }
}

#[test]
fn key_code_table_rejects_unknown_codes() {
    for code in [0u16, 33, 64, 126, 128, 1000, 65000, 65513] {
        assert_eq!(Key::from_code(code), None);
    }
}

#[test]
fn key_code_table_is_deterministic() {
    for code in 0u16..=300 {
        assert_eq!(Key::from_code(code), Key::from_code(code));
    }
}

#[test]
fn mouse_code_table() {
    assert_eq!(Mouse::from_code(65513), Some(Mouse::Left));
    assert_eq!(Mouse::from_code(65512), Some(Mouse::Right));
    assert_eq!(Mouse::from_code(65511), Some(Mouse::Middle));
    assert_eq!(Mouse::from_code(65510), Some(Mouse::Release));
    assert_eq!(Mouse::from_code(65509), Some(Mouse::WheelUp));
    assert_eq!(Mouse::from_code(65508), Some(Mouse::WheelDown));
    assert_eq!(Mouse::from_code(65507), None);
    assert_eq!(Mouse::from_code(0), None);
}

#[test]
fn color_projections() {
    assert_eq!(Color::Black.as_256color(), 0);
    assert_eq!(Color::Red.as_256color(), 1);
    assert_eq!(Color::Green.as_256color(), 2);
    assert_eq!(Color::Yellow.as_256color(), 3);
    assert_eq!(Color::Blue.as_256color(), 4);
    assert_eq!(Color::Magenta.as_256color(), 5);
    assert_eq!(Color::Cyan.as_256color(), 6);
    assert_eq!(Color::White.as_256color(), 7);
    assert_eq!(Color::Byte(200).as_256color(), 200);

    assert_eq!(Color::Default.as_16color(), 0);
    assert_eq!(Color::Black.as_16color(), 1);
    assert_eq!(Color::Red.as_16color(), 2);
    assert_eq!(Color::White.as_16color(), 8);

    // The historical sentinel for the default color.
    assert_eq!(Color::Default.as_256_color(), 999);
    assert_eq!(Color::White.as_256_color(), 7);
    assert_eq!(Color::Byte(42).as_256_color(), 42);
}

#[test]
fn color_escape_strings() {
    assert_eq!(Color::Default.as_fg_str(), "\x1b[39m");
    assert_eq!(Color::Default.as_bg_str(), "\x1b[49m");
    assert_eq!(Color::Red.as_fg_str(), "\x1b[38;5;1m");
    assert_eq!(Color::White.as_bg_str(), "\x1b[48;5;7m");
    assert_eq!(Color::Byte(123).as_fg_str(), "\x1b[38;5;123m");
    assert_eq!(Color::Byte(12345).as_bg_str(), "\x1b[48;5;12345m");
    assert_eq!(Color::Black.as_fg_str(), "\x1b[38;5;0m");
}

#[test]
fn color_default_trait_is_black() {
    assert_eq!(<Color as Default>::default(), Color::Black);
}

#[test]
fn style_escape_strings() {
    assert_eq!(Style::Normal.as_str(), None);
    assert_eq!(Style::Underline.as_str(), Some("\x1b[4m"));
    assert_eq!(Style::Bold.as_str(), Some("\x1b[1m"));
    assert_eq!(Style::Blink.as_str(), Some("\x1b[5m"));
    assert_eq!(Style::Reverse.as_str(), Some("\x1b[7m"));
}

#[test]
fn attribute_words() {
    assert_eq!(attributes::Style::from_color(Color::Default).bits(), 0);
    assert_eq!(attributes::Style::from_color(Color::White).bits(), 8);
    assert_eq!(attributes::Style::from_256color(Color::Byte(300)).bits(), 300);
    let bold = attributes::Style::from_bits(attributes::RB_BOLD);
    let packed = attributes::Style::from_color(Color::Red).union(bold.attr_flags());
    assert_eq!(packed.bits(), 0x0102);
    let mixed = attributes::Style::from_bits(attributes::RB_BOLD | 0x000f);
    assert_eq!(mixed.attr_flags().bits(), attributes::RB_BOLD);
    assert_eq!(attributes::TB_ATTRIB, 0x0700);
    assert_eq!(attributes::RB_NORMAL, 0);
}

#[test]
fn termcode_strings() {
    assert_eq!(termcodes::EnterCa.as_str(), "\x1b[?1049h\x1b[22;0;0t");
    assert_eq!(termcodes::ExitCa.as_str(), "\x1b[?1049l\x1b[23;0;0t");
    assert_eq!(termcodes::ClearScreen.as_str(), "\x1b[H\x1b[2J");
    assert_eq!(termcodes::HideCursor.as_str(), "\x1b[?25l");
    assert_eq!(termcodes::ShowCursor.as_str(), "\x1b[?25h");
    assert_eq!(termcodes::SGR0.as_str(), "\x1b[m\x0f");
    assert_eq!(termcodes::EnterKeypad.as_str(), "\x1b=");
    assert_eq!(termcodes::ExitKeypad.as_str(), "\x1b>");
}

#[test]
fn termcode_bytes_match_strings() {
    let mut v: Vec<u8> = Vec::new();
    termcodes::push_enter_ca(&mut v);
    assert_eq!(v, b"\x1b[?1049h\x1b[22;0;0t");
    v.clear();
    termcodes::push_sgr0(&mut v);
    assert_eq!(v, b"\x1b[m\x0f");
    v.clear();
    termcodes::push_enter_keypad(&mut v);
    assert_eq!(v, b"\x1b=");
    v.clear();
    termcodes::push_exit_keypad(&mut v);
    assert_eq!(v, b"\x1b>");
    v.clear();
    termcodes::push_show_cursor(&mut v);
    assert_eq!(v, b"\x1b[?25h");
    v.clear();
    termcodes::push_hide_cursor(&mut v);
    assert_eq!(v, b"\x1b[?25l");
    v.clear();
    termcodes::push_clear_screen(&mut v);
    assert_eq!(v, b"\x1b[H\x1b[2J");
    v.clear();
    termcodes::push_exit_ca(&mut v);
    assert_eq!(v, b"\x1b[?1049l\x1b[23;0;0t");
}

fn raw(etype: u8, key: u16, ch: u32, w: i32, h: i32, x: i32, y: i32) -> RawEvent {
    RawEvent { etype, emod: 0, key, ch, w, h, x, y }
}

#[test]
fn unpack_event_cases() {
    let ev = raw(0, 0, 0, 0, 0, 0, 0);
    assert_eq!(unpack_event(0, &ev, false), Ok(Event::NoEvent));

    let ev = raw(1, 0, 'x' as u32, 0, 0, 0, 0);
    assert_eq!(
        unpack_event(1, &ev, false),
        Ok(Event::KeyEvent(Key::Char('x')))
    );
    assert_eq!(
        unpack_event(1, &ev, true),
        Ok(Event::KeyEventRaw(0, 0, 'x' as u32))
    );

    let ev = raw(1, 9, 0, 0, 0, 0, 0);
    assert_eq!(unpack_event(1, &ev, false), Ok(Event::KeyEvent(Key::Tab)));

    let ev = raw(1, 500, 0, 0, 0, 0, 0);
    assert_eq!(
        unpack_event(1, &ev, false),
        Ok(Event::KeyEvent(Key::Unknown(500)))
    );

    // An invalid code point with a zero key code falls back to Unknown.
    let ev = raw(1, 0, 0xd800, 0, 0, 0, 0);
    assert_eq!(
        unpack_event(1, &ev, false),
        Ok(Event::KeyEvent(Key::Unknown(0)))
    );

    let ev = raw(2, 0, 0, 80, 24, 0, 0);
    assert_eq!(unpack_event(2, &ev, false), Ok(Event::ResizeEvent(80, 24)));

    let ev = raw(3, 65513, 0, 0, 0, 7, 3);
    assert_eq!(
        unpack_event(3, &ev, false),
        Ok(Event::MouseEvent(Mouse::Left, 7, 3))
    );
    // An unknown mouse code falls back to the left button.
    let ev = raw(3, 1, 0, 0, 0, 2, 2);
    assert_eq!(
        unpack_event(3, &ev, false),
        Ok(Event::MouseEvent(Mouse::Left, 2, 2))
    );

    let ev = raw(0, 0, 0, 0, 0, 0, 0);
    assert_eq!(unpack_event(-1, &ev, false), Err(EventError::TermboxError));
    assert_eq!(unpack_event(5, &ev, false), Err(EventError::Unknown(5)));
}

#[test]
fn event_error_numeric_codes() {
    assert_eq!(EventError::from_i64(-1), Some(EventError::TermboxError));
    assert_eq!(EventError::from_i64(7), Some(EventError::Unknown(7)));
    assert_eq!(EventError::from_u64(9), Some(EventError::Unknown(9)));
    assert_eq!(EventError::TermboxError.description(), "Error in Termbox");
    assert_eq!(
        EventError::Unknown(3).description(),
        "Unknown error in Termbox"
    );
}

#[test]
fn init_error_numeric_codes() {
    assert!(matches!(
        InitError::from_i64(-1),
        Some(InitError::UnsupportedTerminal)
    ));
    assert!(matches!(
        InitError::from_i64(-2),
        Some(InitError::FailedToOpenTTy)
    ));
    assert!(matches!(
        InitError::from_i64(-3),
        Some(InitError::PipeTrapError)
    ));
    assert!(matches!(
        InitError::from_i64(-9),
        Some(InitError::Unknown(-9))
    ));
    assert!(matches!(InitError::from_u64(4), Some(InitError::Unknown(4))));
    assert_eq!(InitError::AlreadyOpen.description(), "RustBox is already open");
    assert_eq!(
        InitError::FailedToOpenTTy.description(),
        "Failed to open TTY"
    );
}
