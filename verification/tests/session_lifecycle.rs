use rustbox::color::Color;
use rustbox::event::{Event, InitError};
use rustbox::keyboard::Key;
use rustbox::output::{FlushControl, WriteError, WriteOutcome};
use rustbox::session::{
    run, running, InitOptions, InputMode, OutputMode, RustBox, SessionSlot,
};
use rustbox::style::Style;
use rustbox::termmode::TermAttrs;

fn sample_attrs() -> TermAttrs {
    let mut cc = vec![0u8; 32];
    cc[5] = 9;
    cc[6] = 1;
    TermAttrs {
        iflag: 0o27777,
        oflag: 0o5,
        cflag: 0o2777,
        lflag: 0o105073,
        line: 0,
        cc,
        ispeed: 15,
        ospeed: 15,
    }
}

const INIT_BUNDLE: &[u8] = b"\x1b[?1049h\x1b[22;0;0t\x1b=\x1b[?25l\x1b[m\x0f\x1b[H\x1b[2J";
const TEARDOWN_BUNDLE: &[u8] = b"\x1b[?25h\x1b[H\x1b[2J\x1b[?1049l\x1b[23;0;0t\x1b>";

#[test]
fn second_open_fails_while_first_is_open() {
    let mut slot = SessionSlot::new();
    assert!(!running(&slot));
    let rb = RustBox::init(&mut slot, InitOptions::default(), 80, 24, sample_attrs()).unwrap();
    assert!(running(&slot));
    // A second session cannot open while the first is alive.
    let second = RustBox::init(&mut slot, InitOptions::default(), 80, 24, sample_attrs());
    assert!(matches!(second, Err(InitError::AlreadyOpen)));
    assert!(running(&slot));
    // After closing the first, opening succeeds again.
    let _ = rb.close(&mut slot);
    assert!(!running(&slot));
    let rb2 = RustBox::init(&mut slot, InitOptions::default(), 80, 24, sample_attrs());
    assert!(rb2.is_ok());
}

#[test]
fn run_guard_gates_the_slot() {
    let mut slot = SessionSlot::new();
    let guard = run(&mut slot).unwrap();
    assert!(running(&slot));
    assert!(run(&mut slot).is_none());
    guard.release(&mut slot);
    assert!(!running(&slot));
    assert!(run(&mut slot).is_some());
}

#[test]
fn open_queues_the_initial_escape_bundle() {
    let mut slot = SessionSlot::new();
    let rb = RustBox::init(&mut slot, InitOptions::default(), 10, 4, sample_attrs()).unwrap();
    assert_eq!(rb.pending_output().as_slice(), INIT_BUNDLE);
    assert_eq!(rb.width(), 10);
    assert_eq!(rb.height(), 4);
}

#[test]
fn close_restores_the_saved_attributes_exactly() {
    let mut slot = SessionSlot::new();
    let orig = sample_attrs();
    let mut rb = RustBox::init(&mut slot, InitOptions::default(), 5, 2, sample_attrs()).unwrap();
    // Drain the pending opening bundle as a successful flush would.
    let n = rb.pending_output().len();
    assert_eq!(rb.on_write(WriteOutcome::Wrote(n)), FlushControl::Done);
    let td = rb.close(&mut slot);
    assert_eq!(td.bytes, TEARDOWN_BUNDLE);
    assert_eq!(td.restore.iflag, orig.iflag);
    assert_eq!(td.restore.oflag, orig.oflag);
    assert_eq!(td.restore.cflag, orig.cflag);
    assert_eq!(td.restore.lflag, orig.lflag);
    assert_eq!(td.restore.cc, orig.cc);
    assert_eq!(td.restore.ispeed, orig.ispeed);
    assert_eq!(td.restore.ospeed, orig.ospeed);
    assert!(!running(&slot));
}

#[test]
fn close_carries_unflushed_output_with_the_teardown() {
    let mut slot = SessionSlot::new();
    let rb = RustBox::init(&mut slot, InitOptions::default(), 5, 2, sample_attrs()).unwrap();
    let td = rb.close(&mut slot);
    let mut expected = INIT_BUNDLE.to_vec();
    expected.extend_from_slice(TEARDOWN_BUNDLE);
    assert_eq!(td.bytes, expected);
}

#[test]
fn failed_open_leaves_the_slot_and_terminal_untouched() {
    let mut slot = SessionSlot::new();
    let rb = RustBox::init(&mut slot, InitOptions::default(), 5, 2, sample_attrs()).unwrap();
    let failed = RustBox::init(&mut slot, InitOptions::default(), 5, 2, sample_attrs());
    // The failed open produced no session, queued no bytes and did not
    // release the running first session.
    assert!(matches!(failed, Err(InitError::AlreadyOpen)));
    assert!(running(&slot));
    let td = rb.close(&mut slot);
    let mut expected = INIT_BUNDLE.to_vec();
    expected.extend_from_slice(TEARDOWN_BUNDLE);
    assert_eq!(td.bytes, expected);
}

#[test]
fn raw_attrs_applies_the_bit_exact_transformation() {
    let mut slot = SessionSlot::new();
    let rb = RustBox::init(&mut slot, InitOptions::default(), 5, 2, sample_attrs()).unwrap();
    let raw = rb.raw_attrs();
    let orig = sample_attrs();
    // IGNBRK | BRKINT | PARMRK | ISTRIP | INLCR | IGNCR | ICRNL | IXON
    assert_eq!(raw.iflag, orig.iflag & !0o2753);
    // OPOST
    assert_eq!(raw.oflag, orig.oflag & !0o1);
    // ECHO | ECHONL | ICANON | ISIG | IEXTEN
    assert_eq!(raw.lflag, orig.lflag & !0o100113);
    // CSIZE and PARENB cleared, CS8 set
    assert_eq!(raw.cflag, (orig.cflag & !0o460) | 0o60);
    // VMIN and VTIME zeroed, everything else kept
    assert_eq!(raw.cc[6], 0);
    assert_eq!(raw.cc[5], 0);
    assert_eq!(raw.cc[0], orig.cc[0]);
    assert_eq!(raw.line, orig.line);
    assert_eq!(raw.ispeed, orig.ispeed);
    assert_eq!(raw.ospeed, orig.ospeed);
}

#[test]
fn print_char_and_print_fill_cells() {
    let mut slot = SessionSlot::new();
    let mut rb = RustBox::init(&mut slot, InitOptions::default(), 5, 2, sample_attrs()).unwrap();
    assert!(rb.print_char(0, 0, Style::Bold, Color::Red, Color::Default, 'x').is_ok());
    assert!(rb.print_char(9, 0, Style::Bold, Color::Red, Color::Default, 'x').is_err());
    rb.print(2, 1, Style::Normal, Color::Green, Color::Default, "hello");
    // "hello" starts at column 2 of a 5-wide grid: h, e, l fit; l, o are
    // dropped without wrapping.
    let n = rb.pending_output().len();
    let _ = rb.on_write(WriteOutcome::Wrote(n));
    rb.present();
    let frame = rb.pending_output().clone();
    let cells = rustbox::decode::decode_frame(&frame).unwrap();
    let text: String = cells.iter().map(|c| c.ch).collect();
    assert_eq!(text, "x      hel");
}

#[test]
fn present_appends_one_frame_and_flush_drains_in_steps() {
    let mut slot = SessionSlot::new();
    let mut rb = RustBox::init(&mut slot, InitOptions::default(), 1, 1, sample_attrs()).unwrap();
    let n = rb.pending_output().len();
    assert_eq!(rb.on_write(WriteOutcome::Wrote(n)), FlushControl::Done);
    rb.present();
    assert_eq!(rb.pending_output().as_slice(), b"\x1b[m\x0f\x1b[39m\x1b[49m ");
    // The device takes the bytes in two steps, with an interruption.
    assert_eq!(rb.on_write(WriteOutcome::Wrote(4)), FlushControl::Continue);
    assert_eq!(rb.on_write(WriteOutcome::Interrupted), FlushControl::Continue);
    let rest = rb.pending_output().len();
    assert_eq!(rb.on_write(WriteOutcome::Wrote(rest)), FlushControl::Done);
    assert!(rb.pending_output().is_empty());
}

#[test]
fn flush_failures_keep_pending_bytes() {
    let mut slot = SessionSlot::new();
    let mut rb = RustBox::init(&mut slot, InitOptions::default(), 1, 1, sample_attrs()).unwrap();
    let before = rb.pending_output().clone();
    assert_eq!(
        rb.on_write(WriteOutcome::Wrote(0)),
        FlushControl::Fatal(WriteError::WriteZero)
    );
    assert_eq!(rb.pending_output(), &before);
    assert_eq!(
        rb.on_write(WriteOutcome::Failed),
        FlushControl::Fatal(WriteError::Device)
    );
    assert_eq!(rb.pending_output(), &before);
}

#[test]
fn session_decodes_fed_input_into_queued_events() {
    let mut slot = SessionSlot::new();
    let mut rb = RustBox::init(&mut slot, InitOptions::default(), 1, 1, sample_attrs()).unwrap();
    assert_eq!(rb.next_event(), None);
    rb.feed_input(b"ab");
    rb.feed_input(b"\x1b[D");
    assert_eq!(rb.next_event(), Some(Ok(Event::KeyEvent(Key::Char('a')))));
    assert_eq!(rb.next_event(), Some(Ok(Event::KeyEvent(Key::Char('b')))));
    assert_eq!(rb.next_event(), Some(Ok(Event::KeyEvent(Key::Left))));
    assert_eq!(rb.next_event(), None);
    rb.feed_input(b"\x1b[");
    assert_eq!(rb.next_event(), None);
    rb.end_input();
    assert!(rb.next_event().is_some());
}

#[test]
fn session_modes_and_options() {
    let opts = InitOptions::default();
    assert!(matches!(opts.input_mode, InputMode::Current));
    assert!(matches!(opts.output_mode, OutputMode::Current));
    assert!(!opts.buffer_stderr);
    assert_eq!(InputMode::Current.code(), 0);
    assert_eq!(InputMode::Esc.code(), 1);
    assert_eq!(InputMode::Alt.code(), 2);
    assert_eq!(InputMode::EscMouse.code(), 5);
    assert_eq!(InputMode::AltMouse.code(), 6);
    assert_eq!(OutputMode::Current.code(), 0);
    assert_eq!(OutputMode::Normal.code(), 1);
    assert_eq!(OutputMode::EightBit.code(), 2);
    assert_eq!(OutputMode::WebSafe.code(), 3);
    assert_eq!(OutputMode::Grayscale.code(), 4);

    let mut slot = SessionSlot::new();
    let mut rb = RustBox::init(&mut slot, InitOptions::default(), 1, 1, sample_attrs()).unwrap();
    rb.set_input_mode(InputMode::Esc);
    rb.set_output_mode(OutputMode::EightBit);
    rb.clear();
}
