//! Styled text.

use vstd::prelude::*;
use crate::theme::{Color, Modifier, Theme, emphasis};

verus! {

/// How text is drawn: its colour, where it is not the default, and its attributes.
#[derive(Clone, Copy, PartialEq, Eq, Debug, Structural)]
pub struct Style {
    pub fg: Option<Color>,
    pub modifier: Modifier,
}

/// The default style.
pub open spec fn unstyled() -> Style {
    Style { fg: None, modifier: Modifier::none() }
}

/// A colour.
pub open spec fn coloured(color: Color) -> Style {
    Style { fg: Some(color), modifier: Modifier::none() }
}

/// A colour, emphasised as the theme says.
pub open spec fn emphasised(color: Color, theme: Theme) -> Style {
    Style { fg: Some(color), modifier: emphasis(theme) }
}

/// Attributes alone.
pub open spec fn marked(modifier: Modifier) -> Style {
    Style { fg: None, modifier }
}

/// Dimmed text.
pub open spec fn dimmed() -> Modifier {
    Modifier { dim: true, ..Modifier::none() }
}

/// Reversed text.
pub open spec fn reversed() -> Modifier {
    Modifier { reversed: true, ..Modifier::none() }
}

/// Blinking text.
pub open spec fn blinking() -> Modifier {
    Modifier { slow_blink: true, ..Modifier::none() }
}

/// Dimmed text that is struck through.
pub open spec fn struck() -> Modifier {
    Modifier { crossed_out: true, dim: true, ..Modifier::none() }
}

impl Style {
    /// The default style.
    pub fn new() -> (r: Style)
        ensures
            r == unstyled(),
    {
        Style { fg: None, modifier: Modifier::empty() }
    }

    /// A colour.
    pub fn fg(color: Color) -> (r: Style)
        ensures
            r == coloured(color),
    {
        Style { fg: Some(color), modifier: Modifier::empty() }
    }

    /// A colour, emphasised as the theme says.
    pub fn strong(color: Color, theme: &Theme) -> (r: Style)
        ensures
            r == emphasised(color, *theme),
    {
        Style { fg: Some(color), modifier: theme.bold_modifier() }
    }

    /// Attributes alone.
    pub fn of(modifier: Modifier) -> (r: Style)
        ensures
            r == marked(modifier),
    {
        Style { fg: None, modifier }
    }

    /// Dimmed text.
    pub fn dim() -> (r: Style)
        ensures
            r == marked(dimmed()),
    {
        let mut m = Modifier::empty();
        m.dim = true;
        Style { fg: None, modifier: m }
    }

    /// Blinking text.
    pub fn blink() -> (r: Style)
        ensures
            r == marked(blinking()),
    {
        let mut m = Modifier::empty();
        m.slow_blink = true;
        Style { fg: None, modifier: m }
    }

    /// Reversed text.
    pub fn reverse() -> (r: Style)
        ensures
            r == marked(reversed()),
    {
        let mut m = Modifier::empty();
        m.reversed = true;
        Style { fg: None, modifier: m }
    }

    /// Dimmed text that is struck through.
    pub fn strike() -> (r: Style)
        ensures
            r == marked(struck()),
    {
        let mut m = Modifier::empty();
        m.crossed_out = true;
        m.dim = true;
        Style { fg: None, modifier: m }
    }
}

/// A piece of a line, in one style.
#[derive(Debug)]
pub struct Span {
    pub text: String,
    pub style: Style,
}

/// What a [`Span`] is.
#[verifier::ext_equal]
pub struct SpanView {
    pub text: Seq<char>,
    pub style: Style,
}

impl View for Span {
    type V = SpanView;

    open spec fn view(&self) -> SpanView {
        SpanView { text: self.text@, style: self.style }
    }
}

/// A span in the default style.
pub open spec fn raw_span(text: Seq<char>) -> SpanView {
    SpanView { text, style: unstyled() }
}

/// A span.
pub open spec fn span(text: Seq<char>, style: Style) -> SpanView {
    SpanView { text, style }
}

/// A line, one span after the other.
pub type LineView = Seq<SpanView>;

/// What a line is.
pub open spec fn line_view(line: Seq<Span>) -> LineView {
    line.map_values(|s: Span| s@)
}

/// What several lines are.
pub open spec fn line_views(lines: Seq<Vec<Span>>) -> Seq<LineView> {
    lines.map_values(|l: Vec<Span>| line_view(l@))
}

/// Appends a span in the default style.
pub fn push_raw(line: &mut Vec<Span>, text: &str)
    ensures
        line_view(final(line)@) == line_view(old(line)@).push(raw_span(text@)),
{
    line.push(Span { text: text.to_owned(), style: Style::new() });
    assert(line_view(line@) =~= line_view(old(line)@).push(raw_span(text@)));
}

/// Appends a span.
pub fn push_span(line: &mut Vec<Span>, text: String, style: Style)
    ensures
        line_view(final(line)@) == line_view(old(line)@).push(span(text@, style)),
{
    line.push(Span { text, style });
    assert(line_view(line@) =~= line_view(old(line)@).push(span(text@, style)));
}

/// An empty line.
pub fn no_spans() -> (r: Vec<Span>)
    ensures
        line_view(r@) == Seq::<SpanView>::empty(),
{
    let r: Vec<Span> = Vec::new();
    assert(line_view(r@) =~= Seq::<SpanView>::empty());
    r
}

/// Appends a line.
pub fn push_line(lines: &mut Vec<Vec<Span>>, line: Vec<Span>)
    ensures
        line_views(final(lines)@) == line_views(old(lines)@).push(line_view(line@)),
{
    lines.push(line);
    assert(line_views(lines@) =~= line_views(old(lines)@).push(line_view(line@)));
}

/// No line.
pub fn no_lines() -> (r: Vec<Vec<Span>>)
    ensures
        line_views(r@) == Seq::<LineView>::empty(),
{
    let r: Vec<Vec<Span>> = Vec::new();
    assert(line_views(r@) =~= Seq::<LineView>::empty());
    r
}

}
