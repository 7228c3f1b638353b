use syntect_tui::{
    into_span, translate_colour, translate_font_style, translate_style, FontStyle, Modifier, Span,
    SyntectColour, SyntectStyle, SyntectTuiError, TuiColour, TuiStyle, BOLD_BIT, ITALIC_BIT,
    UNDERLINE_BIT,
};

fn fake_syntect_colour(r: u8, g: u8, b: u8, a: u8) -> SyntectColour {
    SyntectColour { r, g, b, a }
}

fn modifier(bold: bool, italic: bool, underlined: bool) -> Modifier {
    Modifier { bold, italic, underlined }
}

#[test]
fn can_convert_to_span() {
    let (r, g, b) = (012_u8, 123_u8, 234_u8);
    let style = SyntectStyle {
        font_style: FontStyle { bits: UNDERLINE_BIT },
        foreground: fake_syntect_colour(r, g, b, 128),
        background: fake_syntect_colour(g, b, r, 128),
    };
    let content = "syntax";
    let expected = Ok(Span {
        content: String::from(content),
        style: TuiStyle {
            fg: Some(TuiColour { r, g, b }),
            bg: Some(TuiColour { r: g, g: b, b: r }),
            add_modifier: modifier(false, false, true),
            sub_modifier: modifier(false, false, false),
        },
    });
    let actual = into_span((style, content));
    assert_eq!(expected, actual);
}

#[test]
fn translate_style_ok() {
    let (r, g, b) = (012_u8, 123_u8, 234_u8);
    let input = SyntectStyle {
        font_style: FontStyle { bits: UNDERLINE_BIT },
        foreground: fake_syntect_colour(r, g, b, 128),
        background: fake_syntect_colour(g, b, r, 128),
    };
    let expected = Ok(TuiStyle::default()
        .fg(TuiColour { r, g, b })
        .bg(TuiColour { r: g, g: b, b: r })
        .add_modifier(modifier(false, false, true)));
    let actual = translate_style(input);
    assert_eq!(expected, actual);
}

#[test]
fn translate_style_err() {
    let colour = fake_syntect_colour(012, 123, 234, 128);
    let input = SyntectStyle {
        font_style: FontStyle { bits: 254 },
        foreground: colour,
        background: colour,
    };
    let expected = Err(SyntectTuiError::UnknownFontStyle { bits: 254 });
    let actual = translate_style(input);
    assert_eq!(expected, actual);
}

#[test]
fn translate_colour_with_alpha() {
    let input = fake_syntect_colour(012, 123, 234, 128);
    let expected = Some(TuiColour { r: 012, g: 123, b: 234 });
    assert_eq!(expected, translate_colour(input));
}

#[test]
fn translate_colour_without_alpha() {
    let input = fake_syntect_colour(012, 123, 234, 0);
    assert_eq!(None, translate_colour(input));
}

#[test]
fn translate_colour_ignores_alpha_magnitude() {
    let faint = fake_syntect_colour(7, 8, 9, 1);
    let opaque = fake_syntect_colour(7, 8, 9, 255);
    let expected = Some(TuiColour { r: 7, g: 8, b: 9 });
    assert_eq!(expected, translate_colour(faint));
    assert_eq!(expected, translate_colour(opaque));
}

#[test]
fn translate_colour_transparent_ignores_channels() {
    assert_eq!(None, translate_colour(fake_syntect_colour(255, 255, 255, 0)));
    assert_eq!(None, translate_colour(fake_syntect_colour(0, 0, 0, 0)));
}

#[test]
fn translate_font_style_empty() {
    let actual = translate_font_style(FontStyle { bits: 0 });
    assert_eq!(Ok(modifier(false, false, false)), actual);
}

#[test]
fn translate_font_style_bold() {
    let actual = translate_font_style(FontStyle { bits: BOLD_BIT });
    assert_eq!(Ok(modifier(true, false, false)), actual);
}

#[test]
fn translate_font_style_italic() {
    let actual = translate_font_style(FontStyle { bits: ITALIC_BIT });
    assert_eq!(Ok(modifier(false, true, false)), actual);
}

#[test]
fn translate_font_style_underline() {
    let actual = translate_font_style(FontStyle { bits: UNDERLINE_BIT });
    assert_eq!(Ok(modifier(false, false, true)), actual);
}

#[test]
fn translate_font_style_bold_italic() {
    let actual = translate_font_style(FontStyle { bits: BOLD_BIT | ITALIC_BIT });
    assert_eq!(Ok(modifier(true, true, false)), actual);
}

#[test]
fn translate_font_style_bold_underline() {
    let actual = translate_font_style(FontStyle { bits: BOLD_BIT | UNDERLINE_BIT });
    assert_eq!(Ok(modifier(true, false, true)), actual);
}

#[test]
fn translate_font_style_italic_underline() {
    let actual = translate_font_style(FontStyle { bits: ITALIC_BIT | UNDERLINE_BIT });
    assert_eq!(Ok(modifier(false, true, true)), actual);
}

#[test]
fn translate_font_style_bold_italic_underline() {
    let actual = translate_font_style(FontStyle { bits: BOLD_BIT | ITALIC_BIT | UNDERLINE_BIT });
    assert_eq!(Ok(modifier(true, true, true)), actual);
}

#[test]
fn translate_font_style_unknown_bits() {
    let actual = translate_font_style(FontStyle { bits: 254 });
    assert_eq!(Err(SyntectTuiError::UnknownFontStyle { bits: 254 }), actual);
}

#[test]
fn translate_font_style_rejects_smallest_unknown() {
    let actual = translate_font_style(FontStyle { bits: 8 });
    assert_eq!(Err(SyntectTuiError::UnknownFontStyle { bits: 8 }), actual);
}

#[test]
fn translate_style_never_subtracts_emphasis() {
    let input = SyntectStyle {
        font_style: FontStyle { bits: BOLD_BIT | ITALIC_BIT | UNDERLINE_BIT },
        foreground: fake_syntect_colour(1, 2, 3, 4),
        background: fake_syntect_colour(5, 6, 7, 8),
    };
    let actual = translate_style(input).unwrap();
    assert_eq!(modifier(false, false, false), actual.sub_modifier);
}

#[test]
fn span_background_colourless_when_transparent() {
    let style = SyntectStyle {
        font_style: FontStyle { bits: 0 },
        foreground: fake_syntect_colour(10, 20, 30, 40),
        background: fake_syntect_colour(99, 88, 77, 0),
    };
    let actual = into_span((style, "text")).unwrap();
    assert_eq!(None, actual.style.bg);
    assert_eq!(Some(TuiColour { r: 10, g: 20, b: 30 }), actual.style.fg);
}

#[test]
fn span_not_produced_for_unknown_font_style() {
    let style = SyntectStyle {
        font_style: FontStyle { bits: 254 },
        foreground: fake_syntect_colour(10, 20, 30, 40),
        background: fake_syntect_colour(50, 60, 70, 80),
    };
    let actual = into_span((style, "text"));
    assert_eq!(Err(SyntectTuiError::UnknownFontStyle { bits: 254 }), actual);
}

#[test]
fn span_copies_text() {
    let style = SyntectStyle {
        font_style: FontStyle { bits: 0 },
        foreground: fake_syntect_colour(0, 0, 0, 255),
        background: fake_syntect_colour(0, 0, 0, 0),
    };
    let actual = into_span((style, "hello")).unwrap();
    assert_eq!("hello", actual.content);
}

#[test]
fn tui_style_default_is_neutral() {
    let expected = TuiStyle {
        fg: None,
        bg: None,
        add_modifier: modifier(false, false, false),
        sub_modifier: modifier(false, false, false),
    };
    assert_eq!(expected, TuiStyle::default());
}

#[test]
fn add_modifier_accumulates_flags() {
    let style = TuiStyle::default()
        .add_modifier(modifier(true, false, false))
        .add_modifier(modifier(false, false, true));
    assert_eq!(modifier(true, false, true), style.add_modifier);
}

#[test]
fn modifier_empty_has_no_flags() {
    assert_eq!(modifier(false, false, false), Modifier::empty());
}

#[test]
fn modifier_or_unions_flags() {
    let left = modifier(true, false, false);
    let right = modifier(false, true, false);
    assert_eq!(modifier(true, true, false), left.or(right));
}
