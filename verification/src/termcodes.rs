//! The fixed escape sequences the driver writes: screen and keypad mode
//! switches, cursor visibility, clearing, and the attribute reset.
//!
//! Each code is available as a string (`as_str`) and, for the byte
//! stream the renderer and the session emit, as a byte sequence with a
//! matching `push_*` emitter.

use vstd::prelude::*;

verus! {

/// `ESC[?1049h ESC[22;0;0t`: enter the alternate screen.
pub struct EnterCa;

/// `ESC[?1049l ESC[23;0;0t`: leave the alternate screen.
pub struct ExitCa;

/// `ESC[H ESC[2J`: move the cursor home and clear the screen.
pub struct ClearScreen;

/// `ESC[?25l`: hide the cursor.
pub struct HideCursor;

/// `ESC[?25h`: show the cursor.
pub struct ShowCursor;

/// `ESC[m 0x0F`: reset all graphic attributes.
pub struct SGR0;

/// `ESC=`: enter keypad-application mode.
pub struct EnterKeypad;

/// `ESC>`: leave keypad-application mode.
pub struct ExitKeypad;

/// The bytes of `ESC[?1049h ESC[22;0;0t`.
pub open spec fn spec_enter_ca() -> Seq<u8> {
    seq![
        0x1bu8, 0x5b, 0x3f, 0x31, 0x30, 0x34, 0x39, 0x68,
        0x1bu8, 0x5b, 0x32, 0x32, 0x3b, 0x30, 0x3b, 0x30, 0x74,
    ]
}

/// The bytes of `ESC[?1049l ESC[23;0;0t`.
pub open spec fn spec_exit_ca() -> Seq<u8> {
    seq![
        0x1bu8, 0x5b, 0x3f, 0x31, 0x30, 0x34, 0x39, 0x6c,
        0x1bu8, 0x5b, 0x32, 0x33, 0x3b, 0x30, 0x3b, 0x30, 0x74,
    ]
}

/// The bytes of `ESC[H ESC[2J`.
pub open spec fn spec_clear_screen() -> Seq<u8> {
    seq![0x1bu8, 0x5b, 0x48, 0x1bu8, 0x5b, 0x32, 0x4a]
}

/// The bytes of `ESC[?25l`.
pub open spec fn spec_hide_cursor() -> Seq<u8> {
    seq![0x1bu8, 0x5b, 0x3f, 0x32, 0x35, 0x6c]
}

/// The bytes of `ESC[?25h`.
pub open spec fn spec_show_cursor() -> Seq<u8> {
    seq![0x1bu8, 0x5b, 0x3f, 0x32, 0x35, 0x68]
}

/// The bytes of `ESC[m 0x0F`.
pub open spec fn spec_sgr0() -> Seq<u8> {
    seq![0x1bu8, 0x5b, 0x6d, 0x0fu8]
}

/// The bytes of `ESC=`.
pub open spec fn spec_enter_keypad() -> Seq<u8> {
    seq![0x1bu8, 0x3d]
}

/// The bytes of `ESC>`.
pub open spec fn spec_exit_keypad() -> Seq<u8> {
    seq![0x1bu8, 0x3e]
}

/// Appends the enter-alternate-screen code to `out`.
pub fn push_enter_ca(out: &mut Vec<u8>)
    ensures
        final(out)@ == old(out)@ + spec_enter_ca(),
{
    out.push(0x1b);
    out.push(0x5b);
    out.push(0x3f);
    out.push(0x31);
    out.push(0x30);
    out.push(0x34);
    out.push(0x39);
    out.push(0x68);
    out.push(0x1b);
    out.push(0x5b);
    out.push(0x32);
    out.push(0x32);
    out.push(0x3b);
    out.push(0x30);
    out.push(0x3b);
    out.push(0x30);
    out.push(0x74);
    proof {
        assert(final(out)@ =~= old(out)@ + spec_enter_ca());
    }
}

/// Appends the leave-alternate-screen code to `out`.
pub fn push_exit_ca(out: &mut Vec<u8>)
    ensures
        final(out)@ == old(out)@ + spec_exit_ca(),
{
    out.push(0x1b);
    out.push(0x5b);
    out.push(0x3f);
    out.push(0x31);
    out.push(0x30);
    out.push(0x34);
    out.push(0x39);
    out.push(0x6c);
    out.push(0x1b);
    out.push(0x5b);
    out.push(0x32);
    out.push(0x33);
    out.push(0x3b);
    out.push(0x30);
    out.push(0x3b);
    out.push(0x30);
    out.push(0x74);
    proof {
        assert(final(out)@ =~= old(out)@ + spec_exit_ca());
    }
}

/// Appends the clear-screen code to `out`.
pub fn push_clear_screen(out: &mut Vec<u8>)
    ensures
        final(out)@ == old(out)@ + spec_clear_screen(),
{
    out.push(0x1b);
    out.push(0x5b);
    out.push(0x48);
    out.push(0x1b);
    out.push(0x5b);
    out.push(0x32);
    out.push(0x4a);
    proof {
        assert(final(out)@ =~= old(out)@ + spec_clear_screen());
    }
}

/// Appends the hide-cursor code to `out`.
pub fn push_hide_cursor(out: &mut Vec<u8>)
    ensures
        final(out)@ == old(out)@ + spec_hide_cursor(),
{
    out.push(0x1b);
    out.push(0x5b);
    out.push(0x3f);
    out.push(0x32);
    out.push(0x35);
    out.push(0x6c);
    proof {
        assert(final(out)@ =~= old(out)@ + spec_hide_cursor());
    }
}

/// Appends the show-cursor code to `out`.
pub fn push_show_cursor(out: &mut Vec<u8>)
    ensures
        final(out)@ == old(out)@ + spec_show_cursor(),
{
    out.push(0x1b);
    out.push(0x5b);
    out.push(0x3f);
    out.push(0x32);
    out.push(0x35);
    out.push(0x68);
    proof {
        assert(final(out)@ =~= old(out)@ + spec_show_cursor());
    }
}

/// Appends the attribute-reset code to `out`.
pub fn push_sgr0(out: &mut Vec<u8>)
    ensures
        final(out)@ == old(out)@ + spec_sgr0(),
{
    out.push(0x1b);
    out.push(0x5b);
    out.push(0x6d);
    out.push(0x0f);
    proof {
        assert(final(out)@ =~= old(out)@ + spec_sgr0());
    }
}

/// Appends the enter-keypad-mode code to `out`.
pub fn push_enter_keypad(out: &mut Vec<u8>)
    ensures
        final(out)@ == old(out)@ + spec_enter_keypad(),
{
    out.push(0x1b);
    out.push(0x3d);
    proof {
        assert(final(out)@ =~= old(out)@ + spec_enter_keypad());
    }
}

/// Appends the leave-keypad-mode code to `out`.
pub fn push_exit_keypad(out: &mut Vec<u8>)
    ensures
        final(out)@ == old(out)@ + spec_exit_keypad(),
{
    out.push(0x1b);
    out.push(0x3e);
    proof {
        assert(final(out)@ =~= old(out)@ + spec_exit_keypad());
    }
}

impl EnterCa {
    /// The code as a string.
    pub fn as_str(&self) -> (r: &'static str)
        ensures
            r@.map_values(|c: char| c as u8) == spec_enter_ca(),
    {
        proof {
            reveal_strlit("\x1b[?1049h\x1b[22;0;0t");
        }
        let r = "\x1b[?1049h\x1b[22;0;0t";
        proof {
            assert(r@.map_values(|c: char| c as u8) =~= spec_enter_ca());
        }
        r
    }
}

impl ExitCa {
    /// The code as a string.
    pub fn as_str(&self) -> (r: &'static str)
        ensures
            r@.map_values(|c: char| c as u8) == spec_exit_ca(),
    {
        proof {
            reveal_strlit("\x1b[?1049l\x1b[23;0;0t");
        }
        let r = "\x1b[?1049l\x1b[23;0;0t";
        proof {
            assert(r@.map_values(|c: char| c as u8) =~= spec_exit_ca());
        }
        r
    }
}

impl ClearScreen {
    /// The code as a string.
    pub fn as_str(&self) -> (r: &'static str)
        ensures
            r@.map_values(|c: char| c as u8) == spec_clear_screen(),
    {
        proof {
            reveal_strlit("\x1b[H\x1b[2J");
        }
        let r = "\x1b[H\x1b[2J";
        proof {
            assert(r@.map_values(|c: char| c as u8) =~= spec_clear_screen());
        }
        r
    }
}

impl HideCursor {
    /// The code as a string.
    pub fn as_str(&self) -> (r: &'static str)
        ensures
            r@.map_values(|c: char| c as u8) == spec_hide_cursor(),
    {
        proof {
            reveal_strlit("\x1b[?25l");
        }
        let r = "\x1b[?25l";
        proof {
            assert(r@.map_values(|c: char| c as u8) =~= spec_hide_cursor());
        }
        r
    }
}

impl ShowCursor {
    /// The code as a string.
    pub fn as_str(&self) -> (r: &'static str)
        ensures
            r@.map_values(|c: char| c as u8) == spec_show_cursor(),
    {
        proof {
            reveal_strlit("\x1b[?25h");
        }
        let r = "\x1b[?25h";
        proof {
            assert(r@.map_values(|c: char| c as u8) =~= spec_show_cursor());
        }
        r
    }
}

impl SGR0 {
    /// The code as a string.
    pub fn as_str(&self) -> (r: &'static str)
        ensures
            r@.map_values(|c: char| c as u8) == spec_sgr0(),
    {
        proof {
            reveal_strlit("\x1b[m\x0f");
        }
        let r = "\x1b[m\x0f";
        proof {
            assert(r@.map_values(|c: char| c as u8) =~= spec_sgr0());
        }
        r
    }
}

impl EnterKeypad {
    /// The code as a string.
    pub fn as_str(&self) -> (r: &'static str)
        ensures
            r@.map_values(|c: char| c as u8) == spec_enter_keypad(),
    {
        proof {
            reveal_strlit("\x1b=");
        }
        let r = "\x1b=";
        proof {
            assert(r@.map_values(|c: char| c as u8) =~= spec_enter_keypad());
        }
        r
    }
}

impl ExitKeypad {
    /// The code as a string.
    pub fn as_str(&self) -> (r: &'static str)
        ensures
            r@.map_values(|c: char| c as u8) == spec_exit_keypad(),
    {
        proof {
            reveal_strlit("\x1b>");
        }
        let r = "\x1b>";
        proof {
            assert(r@.map_values(|c: char| c as u8) =~= spec_exit_keypad());
        }
        r
    }
}

} // verus!
