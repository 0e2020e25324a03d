use vstd::prelude::*;

verus! {

/// Foreground colour of a piece of text.
#[derive(Clone, Copy, Debug, PartialEq, Eq, Structural)]
pub enum Tint {
    /// The colour that the terminal uses by default.
    Default,
    Green,
    Yellow,
    Red,
}

/// How a piece of text is drawn.
#[derive(Clone, Copy, Debug, PartialEq, Eq, Structural)]
pub struct TextStyle {
    pub tint: Tint,
    pub bold: bool,
    pub italic: bool,
}

impl TextStyle {
    /// The style of text that is not set off in any way.
    pub open spec fn plain_spec() -> TextStyle {
        TextStyle { tint: Tint::Default, bold: false, italic: false }
    }

    /// Returns the style of text that is not set off in any way.
    pub fn plain() -> (style: TextStyle)
        ensures
            style == TextStyle::plain_spec(),
    {
        TextStyle { tint: Tint::Default, bold: false, italic: false }
    }

    /// Returns the style of text in the given colour, neither bold nor
    /// italic.
    pub fn tinted(tint: Tint) -> (style: TextStyle)
        ensures
            style == (TextStyle { tint, bold: false, italic: false }),
    {
        TextStyle { tint, bold: false, italic: false }
    }
}

/// A piece of text with the style that it is drawn in.
#[derive(Debug, PartialEq, Eq)]
pub struct StyledText {
    pub text: String,
    pub style: TextStyle,
}

/// A styled piece of text, as contracts see it.
pub struct StyledTextView {
    pub text: Seq<char>,
    pub style: TextStyle,
}

impl View for StyledText {
    type V = StyledTextView;

    open spec fn view(&self) -> StyledTextView {
        StyledTextView { text: self.text@, style: self.style }
    }
}

impl DeepView for StyledText {
    type V = StyledTextView;

    open spec fn deep_view(&self) -> StyledTextView {
        self@
    }
}

impl StyledText {
    /// Creates a piece of text with its style.
    pub fn new(text: String, style: TextStyle) -> (styled: StyledText)
        ensures
            styled@ == (StyledTextView { text: text@, style }),
    {
        StyledText { text, style }
    }
}

} // verus!
