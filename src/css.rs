//! Parsing of the decoration values that hold no number, through lightningcss.
use vstd::prelude::*;
use lightningcss::properties::text::{TextDecorationLine as CssLine, TextDecorationStyle as CssStyle};
use lightningcss::traits::Parse;
use lightningcss::values::color::CssColor;
use crate::text_style::{Color, DecorationDeclaration, DecorationLine, DecorationProperty, DecorationStyle};

verus! {

/// The lines a `text-decoration-line` value names, as lightningcss reads it.
pub uninterp spec fn css_decoration_line(s: Seq<char>) -> Option<DecorationLine>;

/// The style a `text-decoration-style` value names, as lightningcss reads it.
pub uninterp spec fn css_decoration_style(s: Seq<char>) -> Option<DecorationStyle>;

/// The color a color value names, as lightningcss reads it, where it is
/// `currentColor` or in the RGB space.
pub uninterp spec fn css_color(s: Seq<char>) -> Option<Color>;

/// Relies on lightningcss's `TextDecorationLine::parse_string`: the flags of
/// the value, `None` where it does not parse; `none` sets no flag.
#[verifier::external_body]
fn parse_line_css(s: &str) -> (r: Option<DecorationLine>)
    ensures
        r == css_decoration_line(s@),
        s@ == "none"@ ==> r == Some(crate::text_style::no_lines()),
        s@ == "underline"@ ==> r == Some(DecorationLine { underline: true, ..crate::text_style::no_lines() }),
{
    let v = CssLine::parse_string(s).ok()?;
    Some(DecorationLine {
        underline: v.contains(CssLine::Underline),
        overline: v.contains(CssLine::Overline),
        line_through: v.contains(CssLine::LineThrough),
        blink: v.contains(CssLine::Blink),
        spelling_error: v.contains(CssLine::SpellingError),
        grammar_error: v.contains(CssLine::GrammarError),
    })
}

/// Relies on lightningcss's `TextDecorationStyle::parse_string`: the keyword
/// of the value, `None` where it does not parse.
#[verifier::external_body]
fn parse_style_css(s: &str) -> (r: Option<DecorationStyle>)
    ensures
        r == css_decoration_style(s@),
        s@ == "solid"@ ==> r == Some(DecorationStyle::Solid),
        s@ == "wavy"@ ==> r == Some(DecorationStyle::Wavy),
{
    match CssStyle::parse_string(s).ok()? {
        CssStyle::Solid => Some(DecorationStyle::Solid),
        CssStyle::Double => Some(DecorationStyle::Double),
        CssStyle::Dotted => Some(DecorationStyle::Dotted),
        CssStyle::Dashed => Some(DecorationStyle::Dashed),
        CssStyle::Wavy => Some(DecorationStyle::Wavy),
    }
}

/// Relies on lightningcss's `CssColor::parse_string`: `currentColor` and
/// colors it reads into the RGB space (hex, named, `rgb()`, `hsl()`,
/// `hwb()`); `None` for any other value.
#[verifier::external_body]
fn parse_color_css(s: &str) -> (r: Option<Color>)
    ensures
        r == css_color(s@),
{
    match CssColor::parse_string(s) {
        Ok(CssColor::CurrentColor) => Some(Color::CurrentColor),
        Ok(CssColor::RGBA(c)) => Some(Color::Rgba(c.red, c.green, c.blue, c.alpha)),
        _ => None,
    }
}

/// The declaration of a keyword-valued decoration property (lines, style,
/// color) with the text `text`; `None` for the properties whose values carry
/// numbers (the shorthand and the thickness).
pub fn keyword_declaration(property: DecorationProperty, text: &str) -> (r: Option<DecorationDeclaration>)
    ensures
        r == match property {
            DecorationProperty::Line => Some(DecorationDeclaration::Line(css_decoration_line(text@))),
            DecorationProperty::Style => Some(DecorationDeclaration::Style(css_decoration_style(text@))),
            DecorationProperty::Color => Some(DecorationDeclaration::Color(css_color(text@))),
            _ => None::<DecorationDeclaration>,
        },
{
    match property {
        DecorationProperty::Line => Some(DecorationDeclaration::Line(parse_line_css(text))),
        DecorationProperty::Style => Some(DecorationDeclaration::Style(parse_style_css(text))),
        DecorationProperty::Color => Some(DecorationDeclaration::Color(parse_color_css(text))),
        _ => None,
    }
}

} // verus!
