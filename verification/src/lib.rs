//! Translation of styled text from a syntax-highlighting engine's model into
//! the model of a terminal-UI rendering library.
//!
//! A highlighting pass hands out segments: a style (foreground and background
//! colours plus font-emphasis flags) paired with a run of text. A terminal
//! renderer wants spans: owned text paired with an optional RGB foreground and
//! background and a set of modifier flags. This crate holds the pure mapping
//! between the two models:
//!
//! * [`translate_colour`] maps an RGBA colour to an optional RGB colour; a
//!   fully transparent colour becomes "no colour at all" rather than black.
//! * [`translate_font_style`] maps the emphasis bitset to modifier flags,
//!   rejecting any bit pattern outside the eight explicit combinations of
//!   bold, italic and underline.
//! * [`translate_style`] composes the two over a whole style record.
//! * [`into_span`] pairs a translated style with an owned copy of the text.
//!
//! Every function is total and deterministic; the only failure in the whole
//! crate is an unrecognized emphasis bit pattern, reported together with the
//! offending raw value.

mod colour;
mod emphasis;
mod error;
mod span;
mod style;

pub use colour::{spec_translate_colour, translate_colour, SyntectColour, TuiColour};
pub use emphasis::{
    lemma_modifier_of_each_recognized_value, recognized_bits, spec_modifier_of_bits, spec_translate_font_style, translate_font_style,
    FontStyle, Modifier, BOLD_BIT, ITALIC_BIT, UNDERLINE_BIT,
};
pub use error::SyntectTuiError;
pub use span::{into_span, Span};
pub use style::{
    lemma_style_fails_iff_font_style_fails, lemma_sub_modifier_always_empty, spec_translate_style,
    translate_style, SyntectStyle, TuiStyle,
};
