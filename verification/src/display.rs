//! Lines of terminal output, described as values: the text, its colour and weight.

use vstd::prelude::*;

verus! {

/// A foreground colour of the terminal.
#[derive(Clone, Copy, Debug, PartialEq, Eq, Structural)]
pub enum TermColor {
    Red,
    Green,
    Yellow,
    Cyan,
    Magenta,
}

/// One line that the program prints; `color` is `None` for the terminal's
/// plain colour.
#[derive(Debug)]
pub struct StyledLine {
    pub text: String,
    pub color: Option<TermColor>,
    pub bold: bool,
}

/// What a `StyledLine` shows.
pub struct StyledLineView {
    pub text: Seq<char>,
    pub color: Option<TermColor>,
    pub bold: bool,
}

impl View for StyledLine {
    type V = StyledLineView;

    open spec fn view(&self) -> StyledLineView {
        StyledLineView { text: self.text@, color: self.color, bold: self.bold }
    }
}

/// The line with the given text, colour and weight.
pub open spec fn styled(text: Seq<char>, color: Option<TermColor>, bold: bool) -> StyledLineView {
    StyledLineView { text, color, bold }
}

impl StyledLine {
    /// A line of the given text, colour and weight.
    pub fn new(text: String, color: Option<TermColor>, bold: bool) -> (line: StyledLine)
        ensures
            line@ == styled(text@, color, bold),
    {
        StyledLine { text, color, bold }
    }
}

/// The views of a sequence of lines.
pub open spec fn lines_view(lines: Seq<StyledLine>) -> Seq<StyledLineView> {
    lines.map_values(|l: StyledLine| l@)
}

/// The text that `Display` writes for a `bool`.
pub open spec fn bool_text(b: bool) -> Seq<char> {
    if b { "true"@ } else { "false"@ }
}

/// Renders a `bool` as `Display` does.
pub fn render_bool(b: bool) -> (s: String)
    ensures
        s@ == bool_text(b),
{
    if b {
        String::from_str("true")
    } else {
        String::from_str("false")
    }
}

} // verus!
