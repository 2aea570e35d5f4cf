//! Colors and text attributes of rendered text.

use vstd::prelude::*;

verus! {

/// A terminal color.
#[derive(Debug, Clone, Copy, PartialEq, Eq, Structural)]
pub enum Color {
    Reset,
    Black,
    Red,
    Green,
    Yellow,
    Blue,
    Magenta,
    Cyan,
    Gray,
    DarkGray,
    LightRed,
    LightGreen,
    LightYellow,
    LightBlue,
    LightMagenta,
    LightCyan,
    White,
    Rgb(u8, u8, u8),
    Indexed(u8),
}

/// A text attribute.
#[derive(Debug, Clone, Copy, PartialEq, Eq, Structural)]
pub enum Modifier {
    Bold,
    Italic,
    Underlined,
    CrossedOut,
}

/// Colors and attributes of a piece of text. What is not set is inherited from
/// the surface that the text is drawn on.
#[derive(Debug, Clone, Copy, PartialEq, Eq, Structural)]
pub struct Style {
    pub fg: Option<Color>,
    pub bg: Option<Color>,
    pub bold: bool,
    pub italic: bool,
    pub underlined: bool,
    pub crossed_out: bool,
}

/// The style that sets nothing.
#[verifier::allow_in_spec]
pub fn plain_style() -> (style: Style)
    returns
        (Style {
            fg: None,
            bg: None,
            bold: false,
            italic: false,
            underlined: false,
            crossed_out: false,
        }),
{
    Style { fg: None, bg: None, bold: false, italic: false, underlined: false, crossed_out: false }
}

/// Plain text of one color on another.
#[verifier::allow_in_spec]
pub fn color_style(foreground: Color, background: Color) -> (style: Style)
    returns
        (Style {
            fg: Some(foreground),
            bg: Some(background),
            bold: false,
            italic: false,
            underlined: false,
            crossed_out: false,
        }),
{
    Style {
        fg: Some(foreground),
        bg: Some(background),
        bold: false,
        italic: false,
        underlined: false,
        crossed_out: false,
    }
}

impl Default for Style {
    fn default() -> (style: Self)
        ensures
            style == plain_style(),
    {
        plain_style()
    }
}

impl Style {
    #[verifier::allow_in_spec]
    pub fn fg(self, color: Color) -> (style: Style)
        returns
            (Style { fg: Some(color), ..self }),
    {
        Style { fg: Some(color), ..self }
    }

    #[verifier::allow_in_spec]
    pub fn bg(self, color: Color) -> (style: Style)
        returns
            (Style { bg: Some(color), ..self }),
    {
        Style { bg: Some(color), ..self }
    }

    #[verifier::allow_in_spec]
    pub fn add_modifier(self, modifier: Modifier) -> (style: Style)
        returns
            match modifier {
                Modifier::Bold => (Style { bold: true, ..self }),
                Modifier::Italic => (Style { italic: true, ..self }),
                Modifier::Underlined => (Style { underlined: true, ..self }),
                Modifier::CrossedOut => (Style { crossed_out: true, ..self }),
            },
    {
        match modifier {
            Modifier::Bold => Style { bold: true, ..self },
            Modifier::Italic => Style { italic: true, ..self },
            Modifier::Underlined => Style { underlined: true, ..self },
            Modifier::CrossedOut => Style { crossed_out: true, ..self },
        }
    }
}

} // verus!
