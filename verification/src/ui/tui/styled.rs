//! Plain-value model of styled terminal text: the colours, styles and spans
//! the widgets compose, which the drawing layer turns into terminal cells.
use vstd::prelude::*;

verus! {

/// A terminal colour.
#[derive(Debug, Clone, Copy, PartialEq, Eq, Structural)]
pub enum Color {
    Black,
    Red,
    Green,
    Yellow,
    Cyan,
    Gray,
    DarkGray,
    LightBlue,
    White,
    Magenta,
    Rgb(u8, u8, u8),
}

/// Foreground, background, boldness and dimness of a piece of text.
#[derive(Debug, Clone, Copy, PartialEq, Eq, Structural)]
pub struct Style {
    pub fg: Option<Color>,
    pub bg: Option<Color>,
    pub bold: bool,
    pub dim: bool,
}

impl Style {
    /// The terminal's default style.
    pub fn plain() -> (r: Style)
        ensures
            r == plain_style(),
    {
        Style { fg: None, bg: None, bold: false, dim: false }
    }

    /// Default style with the given foreground colour.
    pub fn fg(c: Color) -> (r: Style)
        ensures
            r == fg_style(c),
    {
        Style { fg: Some(c), bg: None, bold: false, dim: false }
    }

    /// Dimmed text in the given foreground colour.
    pub fn dim_fg(c: Color) -> (r: Style)
        ensures
            r == dim_style(c),
    {
        Style { fg: Some(c), bg: None, bold: false, dim: true }
    }

    /// Bold text in the given foreground colour.
    pub fn bold_fg(c: Color) -> (r: Style)
        ensures
            r == (Style { fg: Some(c), bg: None, bold: true, dim: false }),
    {
        Style { fg: Some(c), bg: None, bold: true, dim: false }
    }
}

/// Dimmed text in the given foreground colour.
pub open spec fn dim_style(c: Color) -> Style {
    Style { fg: Some(c), bg: None, bold: false, dim: true }
}

/// Bold text in the given foreground colour.
pub open spec fn bold_style(c: Color) -> Style {
    Style { fg: Some(c), bg: None, bold: true, dim: false }
}

/// The terminal's default style.
pub open spec fn plain_style() -> Style {
    Style { fg: None, bg: None, bold: false, dim: false }
}

/// Default style with a foreground colour.
pub open spec fn fg_style(c: Color) -> Style {
    Style { fg: Some(c), bg: None, bold: false, dim: false }
}

/// A run of text drawn in one style.
#[derive(Debug, Clone)]
pub struct Span {
    pub content: String,
    pub style: Style,
}

/// The plain-value content of a span: its characters and style.
pub open spec fn span_of(s: Span) -> (Seq<char>, Style) {
    (s.content@, s.style)
}

/// The plain-value content of a line of spans.
pub open spec fn spans_view(v: Seq<Span>) -> Seq<(Seq<char>, Style)> {
    v.map_values(|s: Span| span_of(s))
}

/// A span holding a copy of `text`.
pub fn span(text: &str, style: Style) -> (r: Span)
    ensures
        r.content@ == text@,
        r.style == style,
{
    Span { content: text.to_owned(), style }
}

/// A span holding the given characters.
pub fn span_chars(text: Vec<char>, style: Style) -> (r: Span)
    ensures
        r.content@ == text@,
        r.style == style,
{
    Span { content: crate::text::string_of(text.as_slice()), style }
}

} // verus!
