//! Styled text: what a screen shows, apart from any terminal.
use vstd::prelude::*;

verus! {

/// A colour of a terminal.
#[derive(Clone, Copy, Debug, PartialEq, Eq, Structural)]
pub enum Color {
    Black,
    Red,
    Green,
    Yellow,
    Blue,
    Magenta,
    Cyan,
    Gray,
    DarkGray,
    LightRed,
    LightGreen,
    LightYellow,
    LightBlue,
    LightMagenta,
    LightCyan,
    White,
    Rgb(u8, u8, u8),
}

/// How a text is shown.
#[derive(Clone, Copy, Debug, PartialEq, Eq, Structural)]
pub struct Style {
    pub fg: Option<Color>,
    pub bg: Option<Color>,
    pub bold: bool,
    pub dim: bool,
    pub underlined: bool,
}

/// A text in one style.
#[derive(Debug, PartialEq, Eq)]
pub struct Span {
    pub text: String,
    pub style: Style,
}

/// A line of styled text.
#[derive(Debug, PartialEq, Eq)]
pub struct Line {
    pub spans: Vec<Span>,
}

/// The model of a text in one style.
pub struct SpanView {
    pub text: Seq<char>,
    pub style: Style,
}

impl View for Span {
    type V = SpanView;

    open spec fn view(&self) -> SpanView {
        SpanView { text: self.text@, style: self.style }
    }
}

impl View for Line {
    type V = Seq<SpanView>;

    open spec fn view(&self) -> Seq<SpanView> {
        Seq::new(self.spans@.len(), |i: int| self.spans@[i]@)
    }
}

/// The models of lines.
pub open spec fn line_views(lines: Seq<Line>) -> Seq<Seq<SpanView>> {
    Seq::new(lines.len(), |i: int| lines[i]@)
}

/// The style that changes nothing.
pub open spec fn unstyled() -> Style {
    Style { fg: None, bg: None, bold: false, dim: false, underlined: false }
}

/// A foreground colour alone.
pub open spec fn colored(color: Color) -> Style {
    Style { fg: Some(color), ..unstyled() }
}

/// A style in bold.
pub open spec fn bold(style: Style) -> Style {
    Style { bold: true, ..style }
}

/// A text in a style.
pub open spec fn styled(text: Seq<char>, style: Style) -> SpanView {
    SpanView { text, style }
}

/// A text without a style.
pub open spec fn raw(text: Seq<char>) -> SpanView {
    SpanView { text, style: unstyled() }
}

impl Style {
    /// The style that changes nothing.
    pub fn plain() -> (r: Style)
        ensures
            r == unstyled(),
    {
        Style { fg: None, bg: None, bold: false, dim: false, underlined: false }
    }

    /// A foreground colour alone.
    pub fn color(color: Color) -> (r: Style)
        ensures
            r == colored(color),
    {
        Style { fg: Some(color), bg: None, bold: false, dim: false, underlined: false }
    }

    /// This style in bold.
    pub fn in_bold(self) -> (r: Style)
        ensures
            r == bold(self),
    {
        Style { fg: self.fg, bg: self.bg, bold: true, dim: self.dim, underlined: self.underlined }
    }
}

impl Span {
    /// A text in a style.
    pub fn styled(text: &str, style: Style) -> (r: Span)
        ensures
            r@ == styled(text@, style),
    {
        Span { text: text.to_string(), style }
    }

    /// A text without a style.
    pub fn raw(text: &str) -> (r: Span)
        ensures
            r@ == raw(text@),
    {
        Span { text: text.to_string(), style: Style::plain() }
    }
}

impl Line {
    /// A line of the given texts.
    pub fn new(spans: Vec<Span>) -> (r: Line)
        ensures
            r@ == Seq::new(spans@.len(), |i: int| spans@[i]@),
    {
        Line { spans }
    }

    /// A line of one text without a style.
    pub fn raw(text: &str) -> (r: Line)
        ensures
            r@ == seq![raw(text@)],
    {
        let r = Line { spans: vec![Span::raw(text)] };
        assert(r@ =~= seq![raw(text@)]);
        r
    }

    /// A line of one text in a style.
    pub fn styled(text: &str, style: Style) -> (r: Line)
        ensures
            r@ == seq![styled(text@, style)],
    {
        let r = Line { spans: vec![Span::styled(text, style)] };
        assert(r@ =~= seq![styled(text@, style)]);
        r
    }
}

} // verus!
