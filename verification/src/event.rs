//! Events handed to the caller, the raw event record they are unpacked
//! from, and the error taxonomy of event polling and initialization.

use vstd::prelude::*;
use crate::keyboard::{Key, spec_key_of_code};
use crate::mouse::{Mouse, spec_mouse_of_code};

verus! {

/// A raw event record as the backend reports it: an event type tag and
/// the union of all event payloads.
#[derive(Clone, Copy, PartialEq, Eq, Structural, Debug)]
pub struct RawEvent {
    pub etype: u8,
    pub emod: u8,
    pub key: u16,
    pub ch: u32,
    pub w: i32,
    pub h: i32,
    pub x: i32,
    pub y: i32,
}

/// An event delivered to the caller.
#[derive(Clone, Copy, PartialEq, Eq, Structural, Debug)]
pub enum Event {
    /// A key event left in its raw representation.
    KeyEventRaw(u8, u16, u32),
    /// A decoded key event.
    KeyEvent(Key),
    /// The terminal was resized to the given width and height.
    ResizeEvent(i32, i32),
    /// A mouse event at the given column and row.
    MouseEvent(Mouse, i32, i32),
    /// Nothing happened before the wait ended.
    NoEvent,
}

/// An error while polling for an event.
#[derive(Clone, Copy, PartialEq, Eq, Structural, Debug)]
pub enum EventError {
    TermboxError,
    Unknown(isize),
}

/// The result of polling for an event.
pub type EventResult = Result<Event, EventError>;

/// An error while opening a session.
#[derive(Debug)]
pub enum InitError {
    BufferStderrFailed(std::io::Error),
    AlreadyOpen,
    UnsupportedTerminal,
    FailedToOpenTTy,
    PipeTrapError,
    Unknown(isize),
}

/// The `std::io::Error` carried by `InitError::BufferStderrFailed` is
/// opaque to this crate; nothing is assumed of its values.
#[verifier::external_type_specification]
#[verifier::external_body]
pub struct ExIoError(std::io::Error);

/// True when `i` is a Unicode scalar value, i.e. the code point of some
/// `char`.
pub open spec fn spec_is_scalar(i: u32) -> bool {
    i < 0xD800 || (0xE000 <= i && i <= 0x10FFFF)
}

/// Relies on `char::from_u32` of std: it returns the `char` with code
/// point `i` when `i` is a Unicode scalar value, and `None` otherwise.
pub assume_specification[ char::from_u32 ](i: u32) -> (r: Option<char>)
    ensures
        spec_is_scalar(i) ==> r == Some(i as char),
        !spec_is_scalar(i) ==> r is None,
;

/// The key a raw key event stands for: a zero code carries a character
/// as a code point; a non-zero code is looked up in the key-code table;
/// what neither resolves becomes `Unknown`.
pub open spec fn spec_key_of_raw(key: u16, ch: u32) -> Key {
    if key == 0 {
        if spec_is_scalar(ch) {
            Key::Char(ch as char)
        } else {
            Key::Unknown(key)
        }
    } else {
        match spec_key_of_code(key) {
            Some(k) => k,
            None => Key::Unknown(key),
        }
    }
}

/// What unpacking a raw event record yields, by its type tag: 0 is no
/// event, 1 a key event (raw or decoded), 2 a resize, 3 a mouse event,
/// and every other tag an error, `TermboxError` for -1.
pub open spec fn spec_unpack_event(ev_type: i32, ev: RawEvent, raw: bool) -> EventResult {
    if ev_type == 0 {
        Ok(Event::NoEvent)
    } else if ev_type == 1 {
        if raw {
            Ok(Event::KeyEventRaw(ev.emod, ev.key, ev.ch))
        } else {
            Ok(Event::KeyEvent(spec_key_of_raw(ev.key, ev.ch)))
        }
    } else if ev_type == 2 {
        Ok(Event::ResizeEvent(ev.w, ev.h))
    } else if ev_type == 3 {
        match spec_mouse_of_code(ev.key) {
            Some(m) => Ok(Event::MouseEvent(m, ev.x, ev.y)),
            None => Ok(Event::MouseEvent(Mouse::Left, ev.x, ev.y)),
        }
    } else if ev_type == -1 {
        Err(EventError::TermboxError)
    } else {
        Err(EventError::Unknown(ev_type as isize))
    }
}

/// Unpacks a raw event record into an `Event`.
///
/// With `raw` set, a key event keeps its raw representation instead of
/// being decoded through the key-code table.
pub fn unpack_event(ev_type: i32, ev: &RawEvent, raw: bool) -> (r: EventResult)
    ensures
        r == spec_unpack_event(ev_type, *ev, raw),
{
    match ev_type {
        0 => Ok(Event::NoEvent),
        1 => Ok(
            if raw {
                Event::KeyEventRaw(ev.emod, ev.key, ev.ch)
            } else {
                let k = if ev.key == 0 {
                    match char::from_u32(ev.ch) {
                        Some(c) => Some(Key::Char(c)),
                        None => None,
                    }
                } else {
                    Key::from_code(ev.key)
                };
                match k {
                    Some(key) => Event::KeyEvent(key),
                    None => Event::KeyEvent(Key::Unknown(ev.key)),
                }
            },
        ),
        2 => Ok(Event::ResizeEvent(ev.w, ev.h)),
        3 => {
            let mouse = match Mouse::from_code(ev.key) {
                Some(m) => m,
                None => Mouse::Left,
            };
            Ok(Event::MouseEvent(mouse, ev.x, ev.y))
        },
        -1 => Err(EventError::TermboxError),
        n => Err(EventError::Unknown(n as isize)),
    }
}

impl EventError {
    /// A short description of the error.
    pub fn description(&self) -> (r: &'static str)
        ensures
            *self is TermboxError ==> r@ == "Error in Termbox"@,
            *self is Unknown ==> r@ == "Unknown error in Termbox"@,
    {
        match *self {
            EventError::TermboxError => "Error in Termbox",
            EventError::Unknown(_) => "Unknown error in Termbox",
        }
    }

    /// The event error a signed numeric return code stands for: -1 is the
    /// backend's own error, everything else is unknown.
    pub fn from_i64(n: i64) -> (r: Option<EventError>)
        ensures
            n == -1 ==> r == Some(EventError::TermboxError),
            n != -1 ==> r == Some(EventError::Unknown(n as isize)),
    {
        match n {
            -1 => Some(EventError::TermboxError),
            n => Some(EventError::Unknown(n as isize)),
        }
    }

    /// The event error an unsigned numeric return code stands for.
    pub fn from_u64(n: u64) -> (r: Option<EventError>)
        ensures
            r == Some(EventError::Unknown(n as isize)),
    {
        Some(EventError::Unknown(n as isize))
    }
}

impl InitError {
    /// A short description of the error.
    pub fn description(&self) -> (r: &'static str)
        ensures
            *self is BufferStderrFailed ==> r@ == "Could not redirect stderr"@,
            *self is AlreadyOpen ==> r@ == "RustBox is already open"@,
            *self is UnsupportedTerminal ==> r@ == "Unsupported terminal"@,
            *self is FailedToOpenTTy ==> r@ == "Failed to open TTY"@,
            *self is PipeTrapError ==> r@ == "Pipe trap error"@,
            *self is Unknown ==> r@ == "Unknown error from Termbox"@,
    {
        match *self {
            InitError::BufferStderrFailed(_) => "Could not redirect stderr",
            InitError::AlreadyOpen => "RustBox is already open",
            InitError::UnsupportedTerminal => "Unsupported terminal",
            InitError::FailedToOpenTTy => "Failed to open TTY",
            InitError::PipeTrapError => "Pipe trap error",
            InitError::Unknown(_) => "Unknown error from Termbox",
        }
    }

    /// The init error a signed numeric return code stands for: -1, -2 and
    /// -3 are the backend's documented failures, everything else unknown.
    pub fn from_i64(n: i64) -> (r: Option<InitError>)
        ensures
            n == -1 ==> (r matches Some(e) && e is UnsupportedTerminal),
            n == -2 ==> (r matches Some(e) && e is FailedToOpenTTy),
            n == -3 ==> (r matches Some(e) && e is PipeTrapError),
            !(-3 <= n <= -1) ==> (r matches Some(e) && e matches InitError::Unknown(m)
                && m == n as isize),
    {
        match n {
            -1 => Some(InitError::UnsupportedTerminal),
            -2 => Some(InitError::FailedToOpenTTy),
            -3 => Some(InitError::PipeTrapError),
            n => Some(InitError::Unknown(n as isize)),
        }
    }

    /// The init error an unsigned numeric return code stands for.
    pub fn from_u64(n: u64) -> (r: Option<InitError>)
        ensures
            r matches Some(e) && e matches InitError::Unknown(m) && m == n as isize,
    {
        Some(InitError::Unknown(n as isize))
    }
}

} // verus!
