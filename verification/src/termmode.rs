//! The terminal-attribute model and the raw-mode transformation.
//!
//! The attribute get/set syscalls happen outside the library; what is
//! modelled here is the snapshot they carry — the flag words, the line
//! discipline, the control characters and the speeds — and the bit-exact
//! transformation that turns a saved snapshot into raw mode.

use vstd::prelude::*;

verus! {

/// Input flag: ignore break condition.
pub const IGNBRK: u32 = 0o000001;

/// Input flag: signal interrupt on break.
pub const BRKINT: u32 = 0o000002;

/// Input flag: mark parity errors.
pub const PARMRK: u32 = 0o000010;

/// Input flag: strip the eighth bit.
pub const ISTRIP: u32 = 0o000040;

/// Input flag: map NL to CR.
pub const INLCR: u32 = 0o000100;

/// Input flag: ignore CR.
pub const IGNCR: u32 = 0o000200;

/// Input flag: map CR to NL.
pub const ICRNL: u32 = 0o000400;

/// Input flag: enable output flow control.
pub const IXON: u32 = 0o002000;

/// Output flag: post-process output.
pub const OPOST: u32 = 0o000001;

/// Local flag: echo input characters.
pub const ECHO: u32 = 0o000010;

/// Local flag: echo NL even with echo off.
pub const ECHONL: u32 = 0o000100;

/// Local flag: canonical line editing.
pub const ICANON: u32 = 0o000002;

/// Local flag: generate signals on INTR, QUIT, SUSP.
pub const ISIG: u32 = 0o000001;

/// Local flag: extended input processing.
pub const IEXTEN: u32 = 0o100000;

/// Control flag: the character-size mask.
pub const CSIZE: u32 = 0o000060;

/// Control flag: parity generation.
pub const PARENB: u32 = 0o000400;

/// Control flag: 8-bit characters.
pub const CS8: u32 = 0o000060;

/// Index of the inter-byte timeout in the control-character array.
pub const VTIME: usize = 5;

/// Index of the minimum-bytes-to-read count in the control-character
/// array.
pub const VMIN: usize = 6;

/// Length of the control-character array.
pub const NCCS: usize = 32;

/// The input flags raw mode clears.
pub const RAW_IFLAG_CLEAR: u32 = IGNBRK | BRKINT | PARMRK | ISTRIP | INLCR | IGNCR | ICRNL | IXON;

/// The local flags raw mode clears.
pub const RAW_LFLAG_CLEAR: u32 = ECHO | ECHONL | ICANON | ISIG | IEXTEN;

/// A snapshot of the TTY's attributes, as captured at session start and
/// restored at session end.
pub struct TermAttrs {
    pub iflag: u32,
    pub oflag: u32,
    pub cflag: u32,
    pub lflag: u32,
    pub line: u8,
    pub cc: Vec<u8>,
    pub ispeed: u32,
    pub ospeed: u32,
}

impl TermAttrs {
    /// The shape invariant: a full control-character array.
    pub open spec fn well_formed(&self) -> bool {
        self.cc@.len() == NCCS
    }

    /// The raw-mode attributes derived from this snapshot.
    ///
    /// Bit-exact: break, parity, strip, CR/NL mapping and flow control
    /// cleared on input; output post-processing off; echo, canonical
    /// mode, signals and extensions off; 8-bit characters without
    /// parity; and non-blocking reads (a minimum of zero bytes with a
    /// zero inter-byte timeout). Everything else is carried over.
    pub fn raw_mode(&self) -> (r: TermAttrs)
        requires
            self.well_formed(),
        ensures
            r.well_formed(),
            r.iflag == self.iflag & !RAW_IFLAG_CLEAR,
            r.oflag == self.oflag & !OPOST,
            r.lflag == self.lflag & !RAW_LFLAG_CLEAR,
            r.cflag == (self.cflag & !(CSIZE | PARENB)) | CS8,
            r.line == self.line,
            r.ispeed == self.ispeed,
            r.ospeed == self.ospeed,
            r.cc@ == self.cc@.update(VMIN as int, 0u8).update(VTIME as int, 0u8),
    {
        let mut cc: Vec<u8> = Vec::new();
        let mut i: usize = 0;
        while i < self.cc.len()
            invariant
                i <= self.cc@.len(),
                cc@ == self.cc@.take(i as int),
            decreases self.cc@.len() - i,
        {
            cc.push(self.cc[i]);
            proof {
                assert(self.cc@.take(i as int).push(self.cc@[i as int]) =~= self.cc@.take(
                    i as int + 1,
                ));
            }
            i = i + 1;
        }
        proof {
            assert(self.cc@.take(self.cc@.len() as int) =~= self.cc@);
        }
        cc[VMIN] = 0;
        cc[VTIME] = 0;
        TermAttrs {
            iflag: self.iflag & !RAW_IFLAG_CLEAR,
            oflag: self.oflag & !OPOST,
            cflag: (self.cflag & !(CSIZE | PARENB)) | CS8,
            lflag: self.lflag & !RAW_LFLAG_CLEAR,
            line: self.line,
            cc,
            ispeed: self.ispeed,
            ospeed: self.ospeed,
        }
    }
}

} // verus!
