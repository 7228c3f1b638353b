use vstd::prelude::*;

use crate::error::SyntectTuiError;
use crate::style::{spec_translate_style, translate_style, SyntectStyle, TuiStyle};

verus! {

/// The renderer's unit of styled text: an owned copy of the text together
/// with its fully translated style.
#[derive(Debug, PartialEq, Eq)]
pub struct Span {
    pub content: String,
    pub style: TuiStyle,
}

/// Converts one highlighted segment — a style paired with a run of text —
/// into a renderable span.
///
/// The style goes through [`translate_style`]; its error, if any, is passed
/// on unchanged and no span is produced. On success the span holds an owned
/// copy of the text, character for character, and the translated style.
pub fn into_span(segment: (SyntectStyle, &str)) -> (res: Result<Span, SyntectTuiError>)
    ensures
        (res matches Ok(span) ==> spec_translate_style(segment.0)
            == Ok::<TuiStyle, SyntectTuiError>(span.style) && span.content@ == segment.1@),
        (res matches Err(e) ==> spec_translate_style(segment.0)
            == Err::<TuiStyle, SyntectTuiError>(e)),
        (res is Ok) <==> (spec_translate_style(segment.0) is Ok),
{
    let (style, content) = segment;
    let translated = translate_style(style)?;
    Ok(Span { content: content.to_owned(), style: translated })
}

} // verus!
