//! The sixteen colours of the text display and the attribute byte that
//! packs two of them.

use vstd::prelude::*;

verus! {

#[allow(dead_code)]
#[derive(Debug, Clone, Copy, PartialEq, Eq, Structural)]
pub enum Color {
    Black,
    Blue,
    Green,
    Cyan,
    Red,
    Magenta,
    Brown,
    LightGray,
    DarkGray,
    LightBlue,
    LightGreen,
    LightCyan,
    LightRed,
    Pink,
    Yellow,
    White,
}

impl Color {
    /// The colour's number on the display, from 0 to 15.
    pub open spec fn value(self) -> u8 {
        match self {
            Color::Black => 0,
            Color::Blue => 1,
            Color::Green => 2,
            Color::Cyan => 3,
            Color::Red => 4,
            Color::Magenta => 5,
            Color::Brown => 6,
            Color::LightGray => 7,
            Color::DarkGray => 8,
            Color::LightBlue => 9,
            Color::LightGreen => 10,
            Color::LightCyan => 11,
            Color::LightRed => 12,
            Color::Pink => 13,
            Color::Yellow => 14,
            Color::White => 15,
        }
    }

    /// The colour's number on the display.
    pub fn number(self) -> (r: u8)
        ensures
            r == self.value(),
            r < 16,
    {
        match self {
            Color::Black => 0,
            Color::Blue => 1,
            Color::Green => 2,
            Color::Cyan => 3,
            Color::Red => 4,
            Color::Magenta => 5,
            Color::Brown => 6,
            Color::LightGray => 7,
            Color::DarkGray => 8,
            Color::LightBlue => 9,
            Color::LightGreen => 10,
            Color::LightCyan => 11,
            Color::LightRed => 12,
            Color::Pink => 13,
            Color::Yellow => 14,
            Color::White => 15,
        }
    }
}

/// The attribute byte of a cell: the background colour in the high four
/// bits, the foreground colour in the low four.
#[derive(Debug, Clone, Copy, PartialEq, Eq, Structural)]
pub struct ColorCode(pub u8);

/// The attribute byte of `fg` on `bg`.
pub open spec fn packed(fg: Color, bg: Color) -> u8 {
    (bg.value() * 16 + fg.value()) as u8
}

impl View for ColorCode {
    type V = u8;

    /// The attribute byte itself.
    open spec fn view(&self) -> u8 {
        self.0
    }
}

impl ColorCode {
    /// The number of the foreground colour.
    pub open spec fn foreground(&self) -> u8 {
        self@ % 16
    }

    /// The number of the background colour.
    pub open spec fn background(&self) -> u8 {
        self@ / 16
    }

    pub fn new(fg: Color, bg: Color) -> (r: Self)
        ensures
            r@ == packed(fg, bg),
            r.foreground() == fg.value(),
            r.background() == bg.value(),
    {
        let f = fg.number();
        let b = bg.number();
        assert((b << 4 | f) == b * 16 + f) by (bit_vector)
            requires
                f < 16,
                b < 16,
        ;
        Self(b << 4 | f)
    }

    /// The attribute with the foreground colour `fg` and the background
    /// as it is.
    pub open spec fn with_foreground(&self, fg: Color) -> ColorCode {
        ColorCode((self.background() * 16 + fg.value()) as u8)
    }

    /// The attribute with the background colour `bg` and the foreground
    /// as it is.
    pub open spec fn with_background(&self, bg: Color) -> ColorCode {
        ColorCode((bg.value() * 16 + self.foreground()) as u8)
    }

    /// Changes the foreground colour and keeps the background.
    pub fn set_foreground(&mut self, fg: Color)
        ensures
            *final(self) == old(self).with_foreground(fg),
            final(self).foreground() == fg.value(),
            final(self).background() == old(self).background(),
    {
        let f = fg.number();
        let color = self.0;
        assert(((color & 0xf0) | (f & 0x0f)) == (color / 16) * 16 + f) by (bit_vector)
            requires
                f < 16,
        ;
        *self = Self((color & 0xf0) | (f & 0x0f));
    }

    /// Changes the background colour and keeps the foreground.
    pub fn set_background(&mut self, bg: Color)
        ensures
            *final(self) == old(self).with_background(bg),
            final(self).foreground() == old(self).foreground(),
            final(self).background() == bg.value(),
    {
        let b = bg.number();
        let color = self.0;
        assert(((b << 4) | (color & 0x0f)) == b * 16 + color % 16) by (bit_vector)
            requires
                b < 16,
        ;
        *self = Self((b << 4) | (color & 0x0f));
    }

}

/// The attribute in which a terminal starts: light gray on black.
pub open spec fn default_color() -> ColorCode {
    ColorCode(packed(Color::LightGray, Color::Black))
}

impl Default for ColorCode {
    /// Light gray on black.
    fn default() -> (r: Self)
        ensures
            r == default_color(),
    {
        Self::new(Color::LightGray, Color::Black)
    }
}

} // verus!
