use rustbox::output::{FlushControl, OutputChannel, WriteError, WriteOutcome};

#[test]
fn write_appends_and_take_drains() {
    let mut ch = OutputChannel::new();
    assert!(ch.is_empty());
    ch.write(b"abc");
    ch.write(b"de");
    assert_eq!(ch.len(), 5);
    assert_eq!(ch.pending().as_slice(), b"abcde");
    let all = ch.take();
    assert_eq!(all, b"abcde");
    assert!(ch.is_empty());
}

#[test]
fn flush_drains_exactly_what_the_device_took() {
    let mut ch = OutputChannel::new();
    ch.write(b"abcdef");
    assert_eq!(ch.on_write(WriteOutcome::Wrote(2)), FlushControl::Continue);
    assert_eq!(ch.pending().as_slice(), b"cdef");
    assert_eq!(ch.on_write(WriteOutcome::Interrupted), FlushControl::Continue);
    assert_eq!(ch.pending().as_slice(), b"cdef");
    assert_eq!(ch.on_write(WriteOutcome::Wrote(4)), FlushControl::Done);
    assert!(ch.is_empty());
    // An empty channel flushes trivially.
    assert_eq!(ch.on_write(WriteOutcome::Wrote(0)), FlushControl::Done);
}

#[test]
fn zero_progress_on_pending_bytes_is_an_error() {
    let mut ch = OutputChannel::new();
    ch.write(b"xy");
    assert_eq!(
        ch.on_write(WriteOutcome::Wrote(0)),
        FlushControl::Fatal(WriteError::WriteZero)
    );
    assert_eq!(ch.pending().as_slice(), b"xy");
}

#[test]
fn device_failure_keeps_the_buffer() {
    let mut ch = OutputChannel::new();
    ch.write(b"xy");
    assert_eq!(
        ch.on_write(WriteOutcome::Failed),
        FlushControl::Fatal(WriteError::Device)
    );
    assert_eq!(ch.pending().as_slice(), b"xy");
}
