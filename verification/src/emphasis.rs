use vstd::prelude::*;

use crate::error::SyntectTuiError;

verus! {

/// The bit for bold in the highlighter's emphasis bitset.
pub const BOLD_BIT: u8 = 1;

/// The bit for underline in the highlighter's emphasis bitset.
pub const UNDERLINE_BIT: u8 = 2;

/// The bit for italic in the highlighter's emphasis bitset.
pub const ITALIC_BIT: u8 = 4;

/// Font-emphasis flags as a highlighting pass produces them: a raw bitset
/// with bold, italic and underline in the three low bits. The representation
/// is a full byte, so values with bits outside those three can occur; they
/// are carried here unchanged and rejected only by [`translate_font_style`].
#[derive(Clone, Copy, Debug, PartialEq, Eq)]
pub struct FontStyle {
    pub bits: u8,
}

/// Emphasis flags in the renderer's vocabulary: bold, italic and underlined,
/// each present or absent. No other flag can be expressed, so a value of
/// this type is always one of the eight recognized combinations.
#[derive(Clone, Copy, Debug, PartialEq, Eq)]
pub struct Modifier {
    pub bold: bool,
    pub italic: bool,
    pub underlined: bool,
}

impl Modifier {
    /// The empty set of emphasis flags.
    pub open spec fn spec_empty() -> Modifier {
        Modifier { bold: false, italic: false, underlined: false }
    }

    /// Returns the empty set of emphasis flags.
    pub fn empty() -> (res: Modifier)
        ensures
            res == Modifier::spec_empty(),
    {
        Modifier { bold: false, italic: false, underlined: false }
    }

    /// The flag-wise union of two sets of emphasis flags.
    pub open spec fn spec_or(self, other: Modifier) -> Modifier {
        Modifier {
            bold: self.bold || other.bold,
            italic: self.italic || other.italic,
            underlined: self.underlined || other.underlined,
        }
    }

    /// Returns the flag-wise union of `self` and `other`.
    pub fn or(self, other: Modifier) -> (res: Modifier)
        ensures
            res == self.spec_or(other),
    {
        Modifier {
            bold: self.bold || other.bold,
            italic: self.italic || other.italic,
            underlined: self.underlined || other.underlined,
        }
    }
}

/// The recognized emphasis values: exactly the eight explicit combinations
/// of bold, italic and underline, taken by exact equality against the raw
/// bitset value. A permissive reading could instead mask unknown bits away;
/// this crate deliberately does not, so any bit outside the three flags makes
/// the whole value unrecognized.
pub open spec fn recognized_bits(bits: u8) -> bool {
    ||| bits == 0
    ||| bits == BOLD_BIT
    ||| bits == ITALIC_BIT
    ||| bits == UNDERLINE_BIT
    ||| bits == BOLD_BIT + ITALIC_BIT
    ||| bits == BOLD_BIT + UNDERLINE_BIT
    ||| bits == ITALIC_BIT + UNDERLINE_BIT
    ||| bits == BOLD_BIT + ITALIC_BIT + UNDERLINE_BIT
}

/// The modifier that a recognized bitset value stands for: each of the three
/// flags is present exactly when its bit is set.
pub open spec fn spec_modifier_of_bits(bits: u8) -> Modifier {
    Modifier {
        bold: bits & BOLD_BIT != 0,
        italic: bits & ITALIC_BIT != 0,
        underlined: bits & UNDERLINE_BIT != 0,
    }
}

/// Each of the eight recognized emphasis values maps to the exact matching
/// combination of modifier flags: every subset of {bold, underline, italic}
/// is translated member for member, with nothing added and nothing dropped.
pub proof fn lemma_modifier_of_each_recognized_value()
    ensures
        (spec_modifier_of_bits(0) == Modifier { bold: false, italic: false, underlined: false }),
        (spec_modifier_of_bits(BOLD_BIT) == Modifier {
            bold: true,
            italic: false,
            underlined: false,
        }),
        (spec_modifier_of_bits(UNDERLINE_BIT) == Modifier {
            bold: false,
            italic: false,
            underlined: true,
        }),
        (spec_modifier_of_bits(ITALIC_BIT) == Modifier {
            bold: false,
            italic: true,
            underlined: false,
        }),
        (spec_modifier_of_bits((BOLD_BIT + UNDERLINE_BIT) as u8) == Modifier {
            bold: true,
            italic: false,
            underlined: true,
        }),
        (spec_modifier_of_bits((BOLD_BIT + ITALIC_BIT) as u8) == Modifier {
            bold: true,
            italic: true,
            underlined: false,
        }),
        (spec_modifier_of_bits((UNDERLINE_BIT + ITALIC_BIT) as u8) == Modifier {
            bold: false,
            italic: true,
            underlined: true,
        }),
        (spec_modifier_of_bits((BOLD_BIT + UNDERLINE_BIT + ITALIC_BIT) as u8) == Modifier {
            bold: true,
            italic: true,
            underlined: true,
        }),
{
    assert(0u8 & 1 == 0 && 0u8 & 2 == 0 && 0u8 & 4 == 0 && 1u8 & 1 == 1 && 1u8 & 2 == 0 && 1u8 & 4
        == 0 && 2u8 & 1 == 0 && 2u8 & 2 == 2 && 2u8 & 4 == 0 && 3u8 & 1 == 1 && 3u8 & 2 == 2 && 3u8
        & 4 == 0) by (bit_vector);
    assert(4u8 & 1 == 0 && 4u8 & 2 == 0 && 4u8 & 4 == 4 && 5u8 & 1 == 1 && 5u8 & 2 == 0 && 5u8 & 4
        == 4 && 6u8 & 1 == 0 && 6u8 & 2 == 2 && 6u8 & 4 == 4 && 7u8 & 1 == 1 && 7u8 & 2 == 2 && 7u8
        & 4 == 4) by (bit_vector);
}

/// The emphasis translation: a recognized value maps flag for flag into the
/// renderer's vocabulary; any other value is an error carrying the raw bits.
pub open spec fn spec_translate_font_style(fs: FontStyle) -> Result<Modifier, SyntectTuiError> {
    if recognized_bits(fs.bits) {
        Ok(spec_modifier_of_bits(fs.bits))
    } else {
        Err(SyntectTuiError::UnknownFontStyle { bits: fs.bits })
    }
}

/// Converts the highlighter's emphasis bitset into the renderer's modifier
/// flags.
///
/// Exactly the eight explicit combinations of bold, italic and underline are
/// accepted; each maps one to one onto the matching modifier flags (underline
/// onto the renderer's "underlined"). Any other bit pattern fails with
/// [`SyntectTuiError::UnknownFontStyle`] carrying the raw value: out-of-vocabulary
/// bits are a hard error, never silently dropped.
pub fn translate_font_style(syntect_font_style: FontStyle) -> (res: Result<
    Modifier,
    SyntectTuiError,
>)
    ensures
        res == spec_translate_font_style(syntect_font_style),
        recognized_bits(syntect_font_style.bits) ==> res == Ok::<Modifier, SyntectTuiError>(
            spec_modifier_of_bits(syntect_font_style.bits),
        ),
        !recognized_bits(syntect_font_style.bits) ==> res == Err::<Modifier, SyntectTuiError>(
            SyntectTuiError::UnknownFontStyle { bits: syntect_font_style.bits },
        ),
        (res is Ok) <==> recognized_bits(syntect_font_style.bits),
{
    let bits = syntect_font_style.bits;
    if bits < 8 {
        Ok(Modifier {
            bold: bits & BOLD_BIT != 0,
            italic: bits & ITALIC_BIT != 0,
            underlined: bits & UNDERLINE_BIT != 0,
        })
    } else {
        Err(SyntectTuiError::UnknownFontStyle { bits })
    }
}

} // verus!
