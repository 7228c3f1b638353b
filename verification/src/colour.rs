use vstd::prelude::*;

verus! {

/// A colour as a highlighting pass produces it: red, green, blue and alpha
/// channels, one byte each. Any combination of channel values is valid.
#[derive(Clone, Copy, Debug, PartialEq, Eq)]
pub struct SyntectColour {
    pub r: u8,
    pub g: u8,
    pub b: u8,
    pub a: u8,
}

/// A colour as a terminal renderer consumes it: red, green and blue channels
/// only. Absence of a colour is expressed by `Option::None` around this type,
/// never by a sentinel value such as black.
#[derive(Clone, Copy, Debug, PartialEq, Eq)]
pub struct TuiColour {
    pub r: u8,
    pub g: u8,
    pub b: u8,
}

/// The colour translation: an opaque or partially opaque colour keeps its
/// red, green and blue channels exactly and drops alpha; a fully transparent
/// colour (alpha zero) becomes colourless, whatever its other channels hold.
pub open spec fn spec_translate_colour(c: SyntectColour) -> Option<TuiColour> {
    if c.a > 0 {
        Some(TuiColour { r: c.r, g: c.g, b: c.b })
    } else {
        None
    }
}

/// Converts an RGBA colour into an optional RGB colour.
///
/// The target colour model has no alpha channel, so the conversion is lossy:
/// any nonzero alpha is discarded and the red, green and blue channels are
/// copied unchanged. Alpha zero is taken as a semantic signal, "no colour,
/// inherit the terminal default", and yields `None` rather than an opaque
/// approximation. This function never fails.
pub fn translate_colour(syntect_colour: SyntectColour) -> (res: Option<TuiColour>)
    ensures
        res == spec_translate_colour(syntect_colour),
        syntect_colour.a == 0 ==> res is None,
        syntect_colour.a > 0 ==> (res == Some(
            TuiColour { r: syntect_colour.r, g: syntect_colour.g, b: syntect_colour.b },
        )),
{
    if syntect_colour.a > 0 {
        Some(TuiColour { r: syntect_colour.r, g: syntect_colour.g, b: syntect_colour.b })
    } else {
        None
    }
}

} // verus!
