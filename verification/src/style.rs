//! Styled text: the spans and lines that the screen shows.

use vstd::prelude::*;
use vstd::string::*;

verus! {

/// A terminal colour.
#[derive(Clone, Copy, Debug, PartialEq, Eq, Structural)]
pub enum Color {
    Black,
    Red,
    Green,
    Yellow,
    Magenta,
    Cyan,
    DarkGray,
    White,
}

/// How a piece of text looks; what is not set is left to the terminal.
#[derive(Clone, Copy, Debug, PartialEq, Eq)]
pub struct Style {
    pub fg: Option<Color>,
    pub bg: Option<Color>,
    pub bold: bool,
    pub dim: bool,
}

/// The terminal's own style.
#[verifier::allow_in_spec]
pub fn plain() -> (r: Style)
    returns
        (Style { fg: None, bg: None, bold: false, dim: false }),
{
    Style { fg: None, bg: None, bold: false, dim: false }
}

/// Text in one colour.
#[verifier::allow_in_spec]
pub fn colored(fg: Color) -> (r: Style)
    returns
        (Style { fg: Some(fg), bg: None, bold: false, dim: false }),
{
    Style { fg: Some(fg), bg: None, bold: false, dim: false }
}

/// Bold text.
#[verifier::allow_in_spec]
pub fn bold() -> (r: Style)
    returns
        (Style { fg: None, bg: None, bold: true, dim: false }),
{
    Style { fg: None, bg: None, bold: true, dim: false }
}

/// Bold text in one colour.
#[verifier::allow_in_spec]
pub fn bold_colored(fg: Color) -> (r: Style)
    returns
        (Style { fg: Some(fg), bg: None, bold: true, dim: false }),
{
    Style { fg: Some(fg), bg: None, bold: true, dim: false }
}

/// Text in one colour on another.
#[verifier::allow_in_spec]
pub fn colored_on(fg: Color, bg: Color) -> (r: Style)
    returns
        (Style { fg: Some(fg), bg: Some(bg), bold: false, dim: false }),
{
    Style { fg: Some(fg), bg: Some(bg), bold: false, dim: false }
}

/// Bold text in one colour on another.
#[verifier::allow_in_spec]
pub fn badge(fg: Color, bg: Color) -> (r: Style)
    returns
        (Style { fg: Some(fg), bg: Some(bg), bold: true, dim: false }),
{
    Style { fg: Some(fg), bg: Some(bg), bold: true, dim: false }
}

/// Bold text on a coloured ground.
#[verifier::allow_in_spec]
pub fn bold_on(bg: Color) -> (r: Style)
    returns
        (Style { fg: None, bg: Some(bg), bold: true, dim: false }),
{
    Style { fg: None, bg: Some(bg), bold: true, dim: false }
}

/// Faint text.
#[verifier::allow_in_spec]
pub fn dim() -> (r: Style)
    returns
        (Style { fg: None, bg: None, bold: false, dim: true }),
{
    Style { fg: None, bg: None, bold: false, dim: true }
}

/// A piece of text in one style.
#[derive(Debug, PartialEq, Eq)]
pub struct Span {
    pub text: String,
    pub style: Style,
}

/// What a span shows.
pub struct SpanView {
    pub text: Seq<char>,
    pub style: Style,
}

impl View for Span {
    type V = SpanView;

    open spec fn view(&self) -> SpanView {
        SpanView { text: self.text@, style: self.style }
    }
}

/// What a line shows.
pub type LineView = Seq<SpanView>;

/// A line of spans, from left to right.
#[derive(Debug, PartialEq, Eq)]
pub struct Line {
    pub spans: Vec<Span>,
}

impl View for Line {
    type V = LineView;

    open spec fn view(&self) -> LineView {
        Seq::new(self.spans@.len(), |i: int| self.spans@[i]@)
    }
}

/// A span of `text` in `style`.
pub open spec fn span(text: Seq<char>, style: Style) -> SpanView {
    SpanView { text, style }
}

/// What a list of lines shows.
pub open spec fn shown(lines: Seq<Line>) -> Seq<LineView> {
    Seq::new(lines.len(), |i: int| lines[i]@)
}

impl Line {
    /// An empty line.
    pub fn new() -> (r: Line)
        ensures
            r@ == Seq::<SpanView>::empty(),
    {
        let line = Line { spans: Vec::new() };
        assert(line@ =~= Seq::empty());
        line
    }

    /// Adds a span at the right end.
    pub fn add(&mut self, text: String, style: Style)
        ensures
            final(self)@ == old(self)@.push(span(text@, style)),
    {
        self.spans.push(Span { text, style });
        assert(self@ =~= old(self)@.push(span(text@, style)));
    }

    /// Adds a span with a fixed text at the right end.
    pub fn put(&mut self, text: &str, style: Style)
        ensures
            final(self)@ == old(self)@.push(span(text@, style)),
    {
        self.add(text.to_owned(), style);
    }
}

} // verus!
