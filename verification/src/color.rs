//! The sixteen display colours and the attribute byte built from two of them.

use vstd::prelude::*;

verus! {

/// One of the sixteen colours of the text display.
#[derive(Clone, Copy, Debug, PartialEq, Eq, Structural)]
pub enum Color {
    Black,
    Blue,
    Green,
    Cyan,
    Red,
    Magenta,
    Brown,
    LightGrey,
    DarkGrey,
    LightBlue,
    LightGreen,
    LightCyan,
    LightRed,
    LightMagenta,
    LightBrown,
    White,
}

impl Color {
    /// The number the display hardware knows this colour by, `0..=15`.
    pub open spec fn number(self) -> u8 {
        match self {
            Color::Black => 0,
            Color::Blue => 1,
            Color::Green => 2,
            Color::Cyan => 3,
            Color::Red => 4,
            Color::Magenta => 5,
            Color::Brown => 6,
            Color::LightGrey => 7,
            Color::DarkGrey => 8,
            Color::LightBlue => 9,
            Color::LightGreen => 10,
            Color::LightCyan => 11,
            Color::LightRed => 12,
            Color::LightMagenta => 13,
            Color::LightBrown => 14,
            Color::White => 15,
        }
    }

    /// The colour's hardware number.
    pub fn code(self) -> (code: u8)
        ensures
            code == self.number(),
            code < 16,
    {
        match self {
            Color::Black => 0,
            Color::Blue => 1,
            Color::Green => 2,
            Color::Cyan => 3,
            Color::Red => 4,
            Color::Magenta => 5,
            Color::Brown => 6,
            Color::LightGrey => 7,
            Color::DarkGrey => 8,
            Color::LightBlue => 9,
            Color::LightGreen => 10,
            Color::LightCyan => 11,
            Color::LightRed => 12,
            Color::LightMagenta => 13,
            Color::LightBrown => 14,
            Color::White => 15,
        }
    }
}

/// The attribute byte of a cell as a number: the foreground colour in bits
/// 0 to 3, the background colour in bits 4 to 7.
pub open spec fn attribute(foreground: Color, background: Color) -> u8 {
    (foreground.number() + 16 * background.number()) as u8
}

/// A display attribute: a foreground and a background colour packed into one
/// byte.
#[derive(Clone, Copy, Debug, PartialEq, Eq, Structural)]
pub struct Style(u8);

impl View for Style {
    type V = u8;

    /// The attribute byte.
    closed spec fn view(&self) -> u8 {
        self.0
    }
}

impl Style {
    /// Packs two colours into an attribute.
    pub fn new(foreground: Color, background: Color) -> (style: Style)
        ensures
            style@ == attribute(foreground, background),
    {
        let low: u8 = foreground.code();
        let high: u8 = background.code();
        assert(low | (high << 4) == low + 16 * high) by (bit_vector)
            requires
                low < 16,
                high < 16,
        ;
        Style(low | (high << 4))
    }

    /// The attribute byte.
    pub fn bits(&self) -> (bits: u8)
        ensures
            bits == self@,
    {
        self.0
    }
}

} // verus!
