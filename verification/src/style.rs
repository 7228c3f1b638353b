use vstd::prelude::*;

use crate::colour::{spec_translate_colour, translate_colour, SyntectColour, TuiColour};
use crate::emphasis::{spec_translate_font_style, translate_font_style, FontStyle, Modifier};
use crate::error::SyntectTuiError;

verus! {

/// A style record as a highlighting pass produces it: a foreground and a
/// background colour, each with alpha, and a font-emphasis bitset.
#[derive(Clone, Copy, Debug, PartialEq, Eq)]
pub struct SyntectStyle {
    pub foreground: SyntectColour,
    pub background: SyntectColour,
    pub font_style: FontStyle,
}

/// A style record as a terminal renderer consumes it: an optional foreground
/// and background colour, a set of modifier flags to add, and a set to
/// subtract. The translation in this crate never subtracts emphasis, so its
/// results always carry an empty `sub_modifier`.
#[derive(Clone, Copy, Debug, PartialEq, Eq)]
pub struct TuiStyle {
    pub fg: Option<TuiColour>,
    pub bg: Option<TuiColour>,
    pub add_modifier: Modifier,
    pub sub_modifier: Modifier,
}

impl TuiStyle {
    /// The neutral style: no colours and no modifier flags.
    pub open spec fn spec_default() -> TuiStyle {
        TuiStyle {
            fg: None,
            bg: None,
            add_modifier: Modifier::spec_empty(),
            sub_modifier: Modifier::spec_empty(),
        }
    }

    /// Returns `self` with the foreground colour set to `colour`.
    pub fn fg(self, colour: TuiColour) -> (res: TuiStyle)
        ensures
            (res == TuiStyle { fg: Some(colour), ..self }),
    {
        TuiStyle { fg: Some(colour), ..self }
    }

    /// Returns `self` with the background colour set to `colour`.
    pub fn bg(self, colour: TuiColour) -> (res: TuiStyle)
        ensures
            (res == TuiStyle { bg: Some(colour), ..self }),
    {
        TuiStyle { bg: Some(colour), ..self }
    }

    /// Returns `self` with `modifier` joined into the added emphasis flags.
    pub fn add_modifier(self, modifier: Modifier) -> (res: TuiStyle)
        ensures
            (res == TuiStyle { add_modifier: self.add_modifier.spec_or(modifier), ..self }),
    {
        TuiStyle { add_modifier: self.add_modifier.or(modifier), ..self }
    }
}

impl Default for TuiStyle {
    /// Returns the neutral style: no colours and no modifier flags.
    fn default() -> (res: TuiStyle)
        ensures
            res == TuiStyle::spec_default(),
    {
        TuiStyle {
            fg: None,
            bg: None,
            add_modifier: Modifier::empty(),
            sub_modifier: Modifier::empty(),
        }
    }
}

/// The style translation: both colours are translated independently, the
/// emphasis bitset decides success, and the subtractive emphasis is always
/// empty. The result is an error exactly when the emphasis value is
/// unrecognized, and then it is that emphasis error itself.
pub open spec fn spec_translate_style(s: SyntectStyle) -> Result<TuiStyle, SyntectTuiError> {
    match spec_translate_font_style(s.font_style) {
        Ok(m) => Ok(
            TuiStyle {
                fg: spec_translate_colour(s.foreground),
                bg: spec_translate_colour(s.background),
                add_modifier: m,
                sub_modifier: Modifier::spec_empty(),
            },
        ),
        Err(e) => Err(e),
    }
}

/// Converts a whole highlighter style into a renderer style.
///
/// The foreground and background colours go through [`translate_colour`] and
/// can never cause a failure; the emphasis bitset goes through
/// [`translate_font_style`], whose error — the only possible one — is passed
/// on unchanged. A successful result never subtracts emphasis: its
/// `sub_modifier` field is always empty.
pub fn translate_style(syntect_style: SyntectStyle) -> (res: Result<TuiStyle, SyntectTuiError>)
    ensures
        res == spec_translate_style(syntect_style),
        (res is Ok) <==> (spec_translate_font_style(syntect_style.font_style) is Ok),
        (res matches Err(e) ==> spec_translate_font_style(syntect_style.font_style)
            == Err::<Modifier, SyntectTuiError>(e)),
        (res matches Ok(t) ==> t.sub_modifier == Modifier::spec_empty()),
{
    let add_modifier = translate_font_style(syntect_style.font_style)?;
    Ok(
        TuiStyle {
            fg: translate_colour(syntect_style.foreground),
            bg: translate_colour(syntect_style.background),
            add_modifier,
            sub_modifier: Modifier::empty(),
        },
    )
}

/// A style translation fails exactly when the emphasis translation of its
/// font-style field fails, and then with that same error: the colour fields
/// never cause a failure.
pub proof fn lemma_style_fails_iff_font_style_fails(s: SyntectStyle)
    ensures
        (spec_translate_style(s) is Err) <==> (spec_translate_font_style(s.font_style) is Err),
        (spec_translate_font_style(s.font_style) matches Err(e) ==> spec_translate_style(s)
            == Err::<TuiStyle, SyntectTuiError>(e)),
{
}

/// A successful style translation never subtracts emphasis: its
/// `sub_modifier` field is the empty set of flags, whatever the input.
pub proof fn lemma_sub_modifier_always_empty(s: SyntectStyle)
    ensures
        (spec_translate_style(s) matches Ok(t) ==> t.sub_modifier == Modifier::spec_empty()),
{
}

} // verus!
