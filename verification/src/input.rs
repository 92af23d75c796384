//! The input decoder: turns the raw byte stream read from the TTY into
//! key events, carrying the progress of a partially read escape
//! sequence across calls.

use vstd::prelude::*;
use crate::event::Event;
use crate::keyboard::Key;

verus! {

/// A byte or byte sequence the decoder does not recognize.
///
/// An unrecognized input surfaces as an error result and leaves the
/// decoder usable; it never aborts the session.
#[derive(Clone, Copy, PartialEq, Eq, Structural, Debug)]
pub enum DecodeError {
    /// A single byte that is neither printable nor the start of a known
    /// escape sequence.
    UnrecognizedByte(u8),
    /// An escape sequence outside the recognized table, or one cut off
    /// by the end of input.
    UnrecognizedSequence,
}

/// What decoding yields per item: an event, or a decode error.
pub type DecodeResult = Result<Event, DecodeError>;

/// How far into an escape sequence the decoder is between calls.
#[derive(Clone, Copy, PartialEq, Eq, Structural, Debug)]
pub enum EscState {
    /// Not inside a sequence.
    Idle,
    /// An ESC byte has been read and awaits its successor.
    SawEsc,
    /// ESC `[` has been read; the final letter is awaited.
    SawCsi,
}

/// True for the ASCII alphanumeric bytes, the bytes that decode to a
/// plain character key.
pub open spec fn spec_is_alnum(b: u8) -> bool {
    (0x30 <= b <= 0x39) || (0x41 <= b <= 0x5a) || (0x61 <= b <= 0x7a)
}

/// The key a CSI final letter stands for, if any: `A` up, `B` down,
/// `C` right, `D` left, `H` home, `F` end.
pub open spec fn spec_csi_key(b: u8) -> Option<Key> {
    if b == 0x44 {
        Some(Key::Left)
    } else if b == 0x43 {
        Some(Key::Right)
    } else if b == 0x41 {
        Some(Key::Up)
    } else if b == 0x42 {
        Some(Key::Down)
    } else if b == 0x48 {
        Some(Key::Home)
    } else if b == 0x46 {
        Some(Key::End)
    } else {
        None
    }
}

/// One transition of the decoder: the state after reading `b`, and the
/// event or error that byte completes, if any.
pub open spec fn spec_step(st: EscState, b: u8) -> (EscState, Option<DecodeResult>) {
    match st {
        EscState::Idle => {
            if b == 0x1b {
                (EscState::SawEsc, None)
            } else if spec_is_alnum(b) {
                (EscState::Idle, Some(Ok(Event::KeyEvent(Key::Char(b as char)))))
            } else {
                (EscState::Idle, Some(Err(DecodeError::UnrecognizedByte(b))))
            }
        },
        EscState::SawEsc => {
            if b == 0x5b {
                (EscState::SawCsi, None)
            } else {
                (EscState::Idle, Some(Err(DecodeError::UnrecognizedSequence)))
            }
        },
        EscState::SawCsi => {
            match spec_csi_key(b) {
                Some(k) => (EscState::Idle, Some(Ok(Event::KeyEvent(k)))),
                None => (EscState::Idle, Some(Err(DecodeError::UnrecognizedSequence))),
            }
        },
    }
}

/// The results a step emits, as a sequence: none or one.
pub open spec fn spec_emitted(o: Option<DecodeResult>) -> Seq<DecodeResult> {
    match o {
        None => Seq::empty(),
        Some(r) => seq![r],
    }
}

/// Folding `spec_step` over a byte sequence: the final state and all
/// events and errors emitted, in order.
pub open spec fn spec_feed(st: EscState, bytes: Seq<u8>) -> (EscState, Seq<DecodeResult>)
    decreases bytes.len(),
{
    if bytes.len() == 0 {
        (st, Seq::empty())
    } else {
        let (st1, ev) = spec_step(st, bytes[0]);
        let (st2, evs) = spec_feed(st1, bytes.drop_first());
        (st2, spec_emitted(ev) + evs)
    }
}

/// What one burst of read bytes decodes to. A burst that is exactly one
/// ESC byte, arriving with the decoder idle, is the stand-alone Esc key:
/// no further byte was immediately available, so the byte cannot open a
/// sequence. Every other burst folds through `spec_step`.
pub open spec fn spec_feed_burst(st: EscState, bytes: Seq<u8>) -> (EscState, Seq<DecodeResult>) {
    if st == EscState::Idle && bytes.len() == 1 && bytes[0] == 0x1b {
        (EscState::Idle, seq![Ok(Event::KeyEvent(Key::Esc))])
    } else {
        spec_feed(st, bytes)
    }
}

/// What ending the input stream emits in a given state: a pending lone
/// ESC is the Esc key; a sequence cut off mid-way is an error; an idle
/// decoder emits nothing. The decoder is idle afterwards.
pub open spec fn spec_finish(st: EscState) -> Option<DecodeResult> {
    match st {
        EscState::Idle => None,
        EscState::SawEsc => Some(Ok(Event::KeyEvent(Key::Esc))),
        EscState::SawCsi => Some(Err(DecodeError::UnrecognizedSequence)),
    }
}

/// Appending one byte to a fed sequence steps the machine once more.
pub proof fn lemma_feed_snoc(st: EscState, bytes: Seq<u8>, b: u8)
    ensures
        spec_feed(st, bytes.push(b)).0 == spec_step(spec_feed(st, bytes).0, b).0,
        spec_feed(st, bytes.push(b)).1 == spec_feed(st, bytes).1 + spec_emitted(
            spec_step(spec_feed(st, bytes).0, b).1,
        ),
    decreases bytes.len(),
{
    reveal_with_fuel(spec_feed, 3);
    if bytes.len() == 0 {
        assert(bytes.push(b).drop_first() =~= bytes);
        let ev = spec_step(st, b).1;
        assert(spec_feed(st, bytes.push(b)).1 =~= Seq::<DecodeResult>::empty() + spec_emitted(ev));
    } else {
        assert(bytes.push(b).drop_first() =~= bytes.drop_first().push(b));
        let st1 = spec_step(st, bytes[0]).0;
        let ev0 = spec_step(st, bytes[0]).1;
        lemma_feed_snoc(st1, bytes.drop_first(), b);
        let evs = spec_feed(st1, bytes.drop_first()).1;
        let ev = spec_step(spec_feed(st1, bytes.drop_first()).0, b).1;
        assert(spec_feed(st, bytes.push(b)).1 == spec_emitted(ev0) + (evs + spec_emitted(ev)));
        assert(spec_emitted(ev0) + (evs + spec_emitted(ev)) =~= (spec_emitted(ev0) + evs)
            + spec_emitted(ev));
    }
}

/// The escape-sequence decoder. Between calls it holds only how far
/// into a sequence the input stands; at most one pending sequence is
/// ever buffered.
pub struct InputDecoder {
    state: EscState,
}

impl InputDecoder {
    /// The carried state.
    pub closed spec fn spec_state(&self) -> EscState {
        self.state
    }

    /// A decoder with nothing carried over.
    pub fn new() -> (r: InputDecoder)
        ensures
            r.spec_state() == EscState::Idle,
    {
        InputDecoder { state: EscState::Idle }
    }

    /// True when no partially read sequence is pending.
    pub fn is_idle(&self) -> (r: bool)
        ensures
            r == (self.spec_state() == EscState::Idle),
    {
        match self.state {
            EscState::Idle => true,
            _ => false,
        }
    }

    /// Consumes one byte; returns the event or error it completes.
    fn step(&mut self, b: u8) -> (r: Option<DecodeResult>)
        ensures
            final(self).spec_state() == spec_step(old(self).spec_state(), b).0,
            r == spec_step(old(self).spec_state(), b).1,
    {
        match self.state {
            EscState::Idle => {
                if b == 0x1b {
                    self.state = EscState::SawEsc;
                    None
                } else if (0x30 <= b && b <= 0x39) || (0x41 <= b && b <= 0x5a) || (0x61 <= b && b
                    <= 0x7a) {
                    Some(Ok(Event::KeyEvent(Key::Char(b as char))))
                } else {
                    Some(Err(DecodeError::UnrecognizedByte(b)))
                }
            },
            EscState::SawEsc => {
                if b == 0x5b {
                    self.state = EscState::SawCsi;
                    None
                } else {
                    self.state = EscState::Idle;
                    Some(Err(DecodeError::UnrecognizedSequence))
                }
            },
            EscState::SawCsi => {
                self.state = EscState::Idle;
                match b {
                    0x44 => Some(Ok(Event::KeyEvent(Key::Left))),
                    0x43 => Some(Ok(Event::KeyEvent(Key::Right))),
                    0x41 => Some(Ok(Event::KeyEvent(Key::Up))),
                    0x42 => Some(Ok(Event::KeyEvent(Key::Down))),
                    0x48 => Some(Ok(Event::KeyEvent(Key::Home))),
                    0x46 => Some(Ok(Event::KeyEvent(Key::End))),
                    _ => Some(Err(DecodeError::UnrecognizedSequence)),
                }
            },
        }
    }

    /// Decodes one burst of bytes, as handed back by one read of the
    /// TTY: the events and errors they complete, in order.
    ///
    /// A burst of exactly one ESC byte while the decoder is idle is the
    /// stand-alone Esc key.
    pub fn feed(&mut self, bytes: &[u8]) -> (r: Vec<DecodeResult>)
        ensures
            final(self).spec_state() == spec_feed_burst(old(self).spec_state(), bytes@).0,
            r@ == spec_feed_burst(old(self).spec_state(), bytes@).1,
    {
        let mut out: Vec<DecodeResult> = Vec::new();
        if self.is_idle() && bytes.len() == 1 && bytes[0] == 0x1b {
            out.push(Ok(Event::KeyEvent(Key::Esc)));
            proof {
                assert(out@ =~= spec_feed_burst(old(self).spec_state(), bytes@).1);
            }
            return out;
        }
        let ghost st0 = self.spec_state();
        proof {
            assert(bytes@.take(0) =~= Seq::<u8>::empty());
        }
        let mut i: usize = 0;
        while i < bytes.len()
            invariant
                i <= bytes@.len(),
                self.spec_state() == spec_feed(st0, bytes@.take(i as int)).0,
                out@ == spec_feed(st0, bytes@.take(i as int)).1,
            decreases bytes@.len() - i,
        {
            proof {
                lemma_feed_snoc(st0, bytes@.take(i as int), bytes@[i as int]);
                assert(bytes@.take(i as int).push(bytes@[i as int]) =~= bytes@.take(i + 1));
            }
            let ghost pre = out@;
            let ghost st_before = self.spec_state();
            match self.step(bytes[i]) {
                Some(ev) => {
                    out.push(ev);
                },
                None => (),
            }
            proof {
                assert(out@ =~= pre + spec_emitted(spec_step(st_before, bytes@[i as int]).1));
            }
            i = i + 1;
        }
        proof {
            assert(bytes@.take(bytes@.len() as int) =~= bytes@);
        }
        out
    }

    /// The input has ended with no further bytes to come: emits what the
    /// pending state stands for and resets the decoder.
    pub fn finish(&mut self) -> (r: Option<DecodeResult>)
        ensures
            r == spec_finish(old(self).spec_state()),
            final(self).spec_state() == EscState::Idle,
    {
        let r = match self.state {
            EscState::Idle => None,
            EscState::SawEsc => Some(Ok(Event::KeyEvent(Key::Esc))),
            EscState::SawCsi => Some(Err(DecodeError::UnrecognizedSequence)),
        };
        self.state = EscState::Idle;
        r
    }
}

/// What a complete, self-contained byte string decodes to: the burst's
/// results, followed by what the end of input emits.
pub open spec fn spec_decode_all(bytes: Seq<u8>) -> Seq<DecodeResult> {
    let (st, evs) = spec_feed_burst(EscState::Idle, bytes);
    evs + spec_emitted(spec_finish(st))
}

/// Decodes a complete byte string with nothing carried in or out.
pub fn decode_all(bytes: &[u8]) -> (r: Vec<DecodeResult>)
    ensures
        r@ == spec_decode_all(bytes@),
{
    let mut dec = InputDecoder::new();
    let mut out = dec.feed(bytes);
    match dec.finish() {
        Some(ev) => {
            out.push(ev);
        },
        None => (),
    }
    proof {
        assert(out@ =~= spec_decode_all(bytes@));
    }
    out
}

} // verus!

