use vstd::prelude::*;

verus! {

/// The single failure in this crate: an emphasis bitset whose raw value is
/// not one of the eight explicit combinations of bold, italic and underline.
/// The offending raw value is carried for diagnostics.
#[derive(Clone, Copy, Debug, PartialEq, Eq)]
pub enum SyntectTuiError {
    UnknownFontStyle { bits: u8 },
}

} // verus!
