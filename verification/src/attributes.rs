//! The legacy 16-bit attribute word: style flags in the high bits, a
//! color code in the low bits, combined only at the point of emission.

use vstd::prelude::*;
use crate::color::{Color, spec_color_code, spec_16_color_code};

verus! {

/// Mask of the low bits that carry a legacy 4-bit color code.
pub const TB_NORMAL_COLOR: u16 = 0x000F;

/// Bold attribute flag.
pub const RB_BOLD: u16 = 0x0100;

/// Underline attribute flag.
pub const RB_UNDERLINE: u16 = 0x0200;

/// Reverse-video attribute flag.
pub const RB_REVERSE: u16 = 0x0400;

/// No attributes.
pub const RB_NORMAL: u16 = 0x0000;

/// Mask of all attribute flags.
pub const TB_ATTRIB: u16 = 0x0700;

/// A set of style attribute flags, possibly packed together with a color
/// code into one attribute word.
#[derive(Clone, Copy, PartialEq, Eq, Structural, Debug)]
pub struct Style {
    pub bits: u16,
}

impl Style {
    /// The raw attribute word.
    pub fn bits(&self) -> (r: u16)
        ensures
            r == self.bits,
    {
        self.bits
    }

    /// A style word from raw bits.
    pub fn from_bits(bits: u16) -> (r: Style)
        ensures
            r.bits == bits,
    {
        Style { bits }
    }

    /// The attribute word of a color in 16-color mode: its 4-bit code in
    /// the low bits. A `Byte` color has no 4-bit code and is rejected.
    pub fn from_color(color: Color) -> (r: Style)
        requires
            !(color is Byte),
        ensures
            r.bits == spec_16_color_code(color) & TB_NORMAL_COLOR,
    {
        Style { bits: color.as_16color() & TB_NORMAL_COLOR }
    }

    /// The attribute word of a color in 256-color mode: its byte code.
    /// `Default` has no byte code and is rejected.
    pub fn from_256color(color: Color) -> (r: Style)
        requires
            !(color is Default),
        ensures
            r.bits == spec_color_code(color),
    {
        Style { bits: color.as_256color() }
    }

    /// The union of two attribute words.
    pub fn union(self, other: Style) -> (r: Style)
        ensures
            r.bits == self.bits | other.bits,
    {
        Style { bits: self.bits | other.bits }
    }

    /// This word restricted to its attribute flags.
    pub fn attr_flags(self) -> (r: Style)
        ensures
            r.bits == self.bits & TB_ATTRIB,
    {
        Style { bits: self.bits & TB_ATTRIB }
    }
}

} // verus!
