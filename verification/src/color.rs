//! The sixteen terminal colors: the eight standard ANSI colors and their
//! eight light (high-intensity) variants.

use vstd::prelude::*;

verus! {

/// One of the sixteen fixed terminal colors, in ANSI palette order: the eight
/// standard colors, then their light variants.
#[derive(Clone, Copy, Debug, PartialEq, Eq, Structural)]
pub enum Color {
    Black,
    Red,
    Green,
    Yellow,
    Blue,
    Magenta,
    Cyan,
    White,
    LightBlack,
    LightRed,
    LightGreen,
    LightYellow,
    LightBlue,
    LightMagenta,
    LightCyan,
    LightWhite,
}

impl Color {
    /// The ANSI 256-color palette index of this color: 0 through 7 for the
    /// standard colors, 8 through 15 for the light variants.
    pub open spec fn code_spec(self) -> u8 {
        match self {
            Color::Black => 0,
            Color::Red => 1,
            Color::Green => 2,
            Color::Yellow => 3,
            Color::Blue => 4,
            Color::Magenta => 5,
            Color::Cyan => 6,
            Color::White => 7,
            Color::LightBlack => 8,
            Color::LightRed => 9,
            Color::LightGreen => 10,
            Color::LightYellow => 11,
            Color::LightBlue => 12,
            Color::LightMagenta => 13,
            Color::LightCyan => 14,
            Color::LightWhite => 15,
        }
    }

    /// The ANSI palette index of this color.
    pub fn code(self) -> (r: u8)
        ensures
            r == self.code_spec(),
            r < 16,
    {
        match self {
            Color::Black => 0,
            Color::Red => 1,
            Color::Green => 2,
            Color::Yellow => 3,
            Color::Blue => 4,
            Color::Magenta => 5,
            Color::Cyan => 6,
            Color::White => 7,
            Color::LightBlack => 8,
            Color::LightRed => 9,
            Color::LightGreen => 10,
            Color::LightYellow => 11,
            Color::LightBlue => 12,
            Color::LightMagenta => 13,
            Color::LightCyan => 14,
            Color::LightWhite => 15,
        }
    }
}

/// The eight standard colors, in the fixed order in which they are shown.
pub open spec fn standard_colors_spec() -> Seq<Color> {
    seq![
        Color::Black,
        Color::Red,
        Color::Green,
        Color::Yellow,
        Color::Blue,
        Color::Magenta,
        Color::Cyan,
        Color::White,
    ]
}

/// The eight light variants, in the fixed order in which they are shown.
pub open spec fn light_colors_spec() -> Seq<Color> {
    seq![
        Color::LightBlack,
        Color::LightRed,
        Color::LightGreen,
        Color::LightYellow,
        Color::LightBlue,
        Color::LightMagenta,
        Color::LightCyan,
        Color::LightWhite,
    ]
}

/// The eight standard colors, in display order.
pub fn standard_colors() -> (r: Vec<Color>)
    ensures
        r@ == standard_colors_spec(),
{
    let r = vec![
        Color::Black,
        Color::Red,
        Color::Green,
        Color::Yellow,
        Color::Blue,
        Color::Magenta,
        Color::Cyan,
        Color::White,
    ];
    proof {
        assert(r@ =~= standard_colors_spec());
    }
    r
}

/// The eight light variants, in display order.
pub fn light_colors() -> (r: Vec<Color>)
    ensures
        r@ == light_colors_spec(),
{
    let r = vec![
        Color::LightBlack,
        Color::LightRed,
        Color::LightGreen,
        Color::LightYellow,
        Color::LightBlue,
        Color::LightMagenta,
        Color::LightCyan,
        Color::LightWhite,
    ];
    proof {
        assert(r@ =~= light_colors_spec());
    }
    r
}

} // verus!
