use vstd::prelude::*;

verus! {

/// A terminal color: one of the 256 indexed palette entries or a direct RGB triple.
#[derive(Clone, Copy, Debug, PartialEq, Eq, Structural)]
pub enum Color {
    Indexed(u8),
    Rgb(u8, u8, u8),
}

/// The graphic rendition attached to a cell.
#[derive(Clone, Copy, Debug, PartialEq, Eq, Structural)]
pub struct Style {
    pub foreground: Option<Color>,
    pub background: Option<Color>,
    pub bold: bool,
    pub italic: bool,
    pub underline: bool,
    pub inverse: bool,
}

/// The style with no colors and no attributes.
pub open spec fn plain_style() -> Style {
    Style {
        foreground: None,
        background: None,
        bold: false,
        italic: false,
        underline: false,
        inverse: false,
    }
}

impl Default for Style {
    fn default() -> (s: Style)
        ensures
            s == plain_style(),
    {
        Style {
            foreground: None,
            background: None,
            bold: false,
            italic: false,
            underline: false,
            inverse: false,
        }
    }
}

impl Style {
    /// The plain style.
    pub fn plain() -> (s: Style)
        ensures
            s == plain_style(),
    {
        Style {
            foreground: None,
            background: None,
            bold: false,
            italic: false,
            underline: false,
            inverse: false,
        }
    }

    pub fn reset(&mut self)
        ensures
            *final(self) == plain_style(),
    {
        *self = Style::plain();
    }

    pub fn set_foreground(&mut self, color: Option<Color>)
        ensures
            *final(self) == (Style { foreground: color, ..*old(self) }),
    {
        self.foreground = color;
    }

    pub fn set_background(&mut self, color: Option<Color>)
        ensures
            *final(self) == (Style { background: color, ..*old(self) }),
    {
        self.background = color;
    }
}

/// A run of consecutive characters that share one style.
#[derive(Clone, Debug, PartialEq, Eq)]
pub struct StyledSpan {
    pub text: String,
    pub style: Style,
}

/// A rendered line as a sequence of styled runs.
#[derive(Clone, Debug, PartialEq, Eq)]
pub struct StyledLine {
    pub spans: Vec<StyledSpan>,
}

/// The abstract content of a span: its characters and its style.
pub open spec fn span_view(span: StyledSpan) -> (Seq<char>, Style) {
    (span.text@, span.style)
}

/// The abstract content of a styled line.
pub open spec fn styled_line_view(line: StyledLine) -> Seq<(Seq<char>, Style)> {
    Seq::new(line.spans@.len(), |i: int| span_view(line.spans@[i]))
}

} // verus!
