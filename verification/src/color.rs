//! Colours: what a cell may ask for, and the 16-bit value the panel is given.

use vstd::prelude::*;

verus! {

/// A colour as a cell names it: one of the sixteen named terminal colours, the
/// default foreground or background, a direct 24-bit value, or a palette index.
#[derive(Clone, Copy, PartialEq, Eq, Debug, Structural)]
pub enum Color {
    Black,
    Red,
    Green,
    Yellow,
    Blue,
    Magenta,
    Cyan,
    White,
    BrightBlack,
    BrightRed,
    BrightGreen,
    BrightYellow,
    BrightBlue,
    BrightMagenta,
    BrightCyan,
    BrightWhite,
    DefaultFg,
    DefaultBg,
    Rgb(u8, u8, u8),
    Indexed(u8),
}

/// A 16-bit panel colour by its components: five bits of red, six of green,
/// five of blue.
#[derive(Clone, Copy, PartialEq, Eq, Debug, Structural)]
pub struct Rgb565 {
    pub r: u8,
    pub g: u8,
    pub b: u8,
}

impl Rgb565 {
    /// Each component fits in its bits.
    pub open spec fn in_range(self) -> bool {
        self.r <= 31 && self.g <= 63 && self.b <= 31
    }

    pub open spec fn black() -> Rgb565 {
        Rgb565 { r: 0, g: 0, b: 0 }
    }

    pub open spec fn white() -> Rgb565 {
        Rgb565 { r: 31, g: 63, b: 31 }
    }

    /// The light gray that default text is drawn in.
    pub open spec fn light_gray() -> Rgb565 {
        Rgb565 { r: 26, g: 52, b: 26 }
    }
}

/// The sixteen palette entries, by index: eight normal colours, then eight bright ones.
pub open spec fn palette() -> Seq<Rgb565> {
    seq![
        Rgb565::black(),
        Rgb565 { r: 31, g: 0, b: 0 },
        Rgb565 { r: 0, g: 63, b: 0 },
        Rgb565 { r: 31, g: 63, b: 0 },
        Rgb565 { r: 0, g: 0, b: 31 },
        Rgb565 { r: 31, g: 0, b: 31 },
        Rgb565 { r: 0, g: 63, b: 31 },
        Rgb565::light_gray(),
        Rgb565 { r: 10, g: 20, b: 10 },
        Rgb565 { r: 31, g: 20, b: 20 },
        Rgb565 { r: 20, g: 63, b: 20 },
        Rgb565 { r: 31, g: 63, b: 20 },
        Rgb565 { r: 20, g: 20, b: 31 },
        Rgb565 { r: 31, g: 20, b: 31 },
        Rgb565 { r: 20, g: 63, b: 31 },
        Rgb565::white(),
    ]
}

impl Color {
    /// The panel colour that this colour resolves to. A named colour is its
    /// palette entry, except that `White` is full white where palette entry 7
    /// is light gray. A direct colour keeps the top bits of each component. An
    /// index past the palette falls back to white as a foreground and to black
    /// as a background.
    pub open spec fn rgb565(self, is_bg: bool) -> Rgb565 {
        match self {
            Color::Black => palette()[0],
            Color::Red => palette()[1],
            Color::Green => palette()[2],
            Color::Yellow => palette()[3],
            Color::Blue => palette()[4],
            Color::Magenta => palette()[5],
            Color::Cyan => palette()[6],
            Color::White => Rgb565::white(),
            Color::BrightBlack => palette()[8],
            Color::BrightRed => palette()[9],
            Color::BrightGreen => palette()[10],
            Color::BrightYellow => palette()[11],
            Color::BrightBlue => palette()[12],
            Color::BrightMagenta => palette()[13],
            Color::BrightCyan => palette()[14],
            Color::BrightWhite => palette()[15],
            Color::DefaultFg => Rgb565::light_gray(),
            Color::DefaultBg => Rgb565::black(),
            Color::Rgb(r, g, b) => Rgb565 { r: r / 8, g: g / 4, b: b / 8 },
            Color::Indexed(i) => if i < 16 {
                palette()[i as int]
            } else if is_bg {
                Rgb565::black()
            } else {
                Rgb565::white()
            },
        }
    }

    /// Resolves the colour for the panel; `is_bg` says whether it is wanted as a
    /// background.
    pub fn to_rgb565(self, is_bg: bool) -> (c: Rgb565)
        ensures
            c == self.rgb565(is_bg),
            c.in_range(),
    {
        match self {
            Color::Black => Rgb565 { r: 0, g: 0, b: 0 },
            Color::Red => Rgb565 { r: 31, g: 0, b: 0 },
            Color::Green => Rgb565 { r: 0, g: 63, b: 0 },
            Color::Yellow => Rgb565 { r: 31, g: 63, b: 0 },
            Color::Blue => Rgb565 { r: 0, g: 0, b: 31 },
            Color::Magenta => Rgb565 { r: 31, g: 0, b: 31 },
            Color::Cyan => Rgb565 { r: 0, g: 63, b: 31 },
            Color::White => Rgb565 { r: 31, g: 63, b: 31 },
            Color::BrightBlack => bright(0),
            Color::BrightRed => bright(1),
            Color::BrightGreen => bright(2),
            Color::BrightYellow => bright(3),
            Color::BrightBlue => bright(4),
            Color::BrightMagenta => bright(5),
            Color::BrightCyan => bright(6),
            Color::BrightWhite => bright(7),
            Color::DefaultFg => Rgb565 { r: 26, g: 52, b: 26 },
            Color::DefaultBg => Rgb565 { r: 0, g: 0, b: 0 },
            Color::Rgb(r, g, b) => Rgb565 { r: r / 8, g: g / 4, b: b / 8 },
            Color::Indexed(i) => {
                if i < 8 {
                    normal(i)
                } else if i < 16 {
                    bright(i - 8)
                } else if is_bg {
                    Rgb565 { r: 0, g: 0, b: 0 }
                } else {
                    Rgb565 { r: 31, g: 63, b: 31 }
                }
            },
        }
    }
}

/// Palette entry `i` of the eight normal colours: bit 0 of `i` is red, bit 1
/// green, bit 2 blue, each at full strength; entry 7 is light gray.
fn normal(i: u8) -> (c: Rgb565)
    requires
        i < 8,
    ensures
        c == palette()[i as int],
{
    if i == 7 {
        Rgb565 { r: 26, g: 52, b: 26 }
    } else {
        Rgb565 {
            r: if i % 2 == 1 { 31 } else { 0 },
            g: if (i / 2) % 2 == 1 { 63 } else { 0 },
            b: if i >= 4 { 31 } else { 0 },
        }
    }
}

/// Palette entry `8 + i` of the eight bright colours: a set bit of `i` gives a
/// full component, a clear one a dimmed component; the first is a dark gray and
/// the last is white.
fn bright(i: u8) -> (c: Rgb565)
    requires
        i < 8,
    ensures
        c == palette()[8 + i as int],
{
    if i == 0 {
        Rgb565 { r: 10, g: 20, b: 10 }
    } else {
        Rgb565 {
            r: if i % 2 == 1 { 31 } else { 20 },
            g: if (i / 2) % 2 == 1 { 63 } else { 20 },
            b: if i >= 4 { 31 } else { 20 },
        }
    }
}

} // verus!
