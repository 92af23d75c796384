use rustbox::event::Event;
use rustbox::input::{decode_all, DecodeError, InputDecoder};
use rustbox::keyboard::Key;

fn keys(bytes: &[u8]) -> Vec<Result<Event, DecodeError>> {
    decode_all(bytes)
}

#[test]
fn test_input_single_key() {
    assert_eq!(keys(b"a"), vec![Ok(Event::KeyEvent(Key::Char('a')))]);
}

#[test]
fn test_input_double_key() {
    let mut dec = InputDecoder::new();
    let got = dec.feed(b"ab");
    assert_eq!(
        got,
        vec![
            Ok(Event::KeyEvent(Key::Char('a'))),
            Ok(Event::KeyEvent(Key::Char('b'))),
        ]
    );
    assert!(dec.is_idle());
}

#[test]
fn test_input_triple_key() {
    let mut dec = InputDecoder::new();
    let got = dec.feed(b"abc");
    assert_eq!(
        got,
        vec![
            Ok(Event::KeyEvent(Key::Char('a'))),
            Ok(Event::KeyEvent(Key::Char('b'))),
            Ok(Event::KeyEvent(Key::Char('c'))),
        ]
    );
    assert!(dec.is_idle());
}

#[test]
fn test_input_left_arrow_key() {
    assert_eq!(keys(b"\x1b[D"), vec![Ok(Event::KeyEvent(Key::Left))]);
}

#[test]
fn test_input_right_arrow_key() {
    assert_eq!(keys(b"\x1b[C"), vec![Ok(Event::KeyEvent(Key::Right))]);
}

#[test]
fn test_input_up_arrow_key() {
    assert_eq!(keys(b"\x1b[A"), vec![Ok(Event::KeyEvent(Key::Up))]);
}

#[test]
fn test_input_down_arrow_key() {
    assert_eq!(keys(b"\x1b[B"), vec![Ok(Event::KeyEvent(Key::Down))]);
}

#[test]
fn test_input_home_key() {
    assert_eq!(keys(b"\x1b[H"), vec![Ok(Event::KeyEvent(Key::Home))]);
}

#[test]
fn test_input_end_arrow_key() {
    assert_eq!(keys(b"\x1b[F"), vec![Ok(Event::KeyEvent(Key::End))]);
}

#[test]
fn test_input_esc_key() {
    // A burst of exactly one ESC byte is the stand-alone Esc key.
    assert_eq!(keys(b"\x1b"), vec![Ok(Event::KeyEvent(Key::Esc))]);
}

#[test]
fn test_input_esc_split_across_reads() {
    // The sequence arrives in two bursts: the decoder carries the
    // partial escape across calls.
    let mut dec = InputDecoder::new();
    assert_eq!(dec.feed(b"\x1b["), vec![]);
    assert!(!dec.is_idle());
    assert_eq!(dec.feed(b"D"), vec![Ok(Event::KeyEvent(Key::Left))]);
    assert!(dec.is_idle());
}

#[test]
fn test_input_unknown_sequence_is_error_not_abort() {
    let mut dec = InputDecoder::new();
    let got = dec.feed(b"\x1b[Z");
    assert_eq!(got, vec![Err(DecodeError::UnrecognizedSequence)]);
    // The decoder stays usable after the error.
    assert!(dec.is_idle());
    assert_eq!(dec.feed(b"ab").len(), 2);
}

#[test]
fn test_input_non_csi_escape_is_error() {
    let mut dec = InputDecoder::new();
    let got = dec.feed(b"\x1bx");
    assert_eq!(got, vec![Err(DecodeError::UnrecognizedSequence)]);
}

#[test]
fn test_input_unrecognized_byte_is_error() {
    assert_eq!(
        keys(b"!"),
        vec![Err(DecodeError::UnrecognizedByte(0x21))]
    );
}

#[test]
fn test_input_truncated_sequence_at_end_of_input() {
    // ESC [ with nothing to come is a malformed sequence.
    assert_eq!(
        keys(b"\x1b["),
        vec![Err(DecodeError::UnrecognizedSequence)]
    );
}

#[test]
fn test_finish_on_pending_esc_yields_esc() {
    let mut dec = InputDecoder::new();
    // Two bytes in the burst: the ESC opens a sequence.
    assert_eq!(dec.feed(b"a\x1b"), vec![Ok(Event::KeyEvent(Key::Char('a')))]);
    assert!(!dec.is_idle());
    assert_eq!(dec.finish(), Some(Ok(Event::KeyEvent(Key::Esc))));
    assert!(dec.is_idle());
    assert_eq!(dec.finish(), None);
}
