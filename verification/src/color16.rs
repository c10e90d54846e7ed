//! The 16 named colors.
//!
//! The first terminals had eight colors: the SGR parameters 30 to 37 set
//! the foreground and 40 to 47 the background. Most terminals add a bright
//! variant of each, 60 above the standard one, and 39 and 49 give back
//! the terminal's default foreground and background.

use vstd::prelude::*;
use crate::color::BRIGHT_OFFSET;
use crate::printer::{c16_open, wrapped, ColorPrinter};

verus! {

/// A foreground or background attribute of the 16-color space, or
/// `ColorNone` for a number that names none of them.
#[derive(PartialEq, Eq, Structural, Debug, Clone, Copy)]
pub enum Color16 {
    /// No color: what a number outside the table decodes to.
    ColorNone,
    /// Black foreground, 30.
    FgBlack,
    /// Red foreground, 31.
    FgRed,
    /// Green foreground, 32.
    FgGreen,
    /// Yellow foreground, 33.
    FgYellow,
    /// Blue foreground, 34.
    FgBlue,
    /// Magenta foreground, 35.
    FgMagenta,
    /// Cyan foreground, 36.
    FgCyan,
    /// White foreground, 37.
    FgWhite,
    /// The terminal's default foreground, 39.
    FgDefault,
    /// Black background, 40.
    BgBlack,
    /// Red background, 41.
    BgRed,
    /// Green background, 42.
    BgGreen,
    /// Yellow background, 43.
    BgYellow,
    /// Blue background, 44.
    BgBlue,
    /// Magenta background, 45.
    BgMagenta,
    /// Cyan background, 46.
    BgCyan,
    /// White background, 47.
    BgWhite,
    /// The terminal's default background, 49.
    BgDefault,
    /// Dark gray foreground, 90.
    FgDarkGray,
    /// Light red foreground, 91.
    FgLightRed,
    /// Light green foreground, 92.
    FgLightGreen,
    /// Light yellow foreground, 93.
    FgLightYellow,
    /// Light blue foreground, 94.
    FgLightBlue,
    /// Light magenta foreground, 95.
    FgLightMagenta,
    /// Light cyan foreground, 96.
    FgLightCyan,
    /// Light white foreground, 97.
    FgLightWhite,
    /// Dark gray background, 100.
    BgDarkGray,
    /// Light red background, 101.
    BgLightRed,
    /// Light green background, 102.
    BgLightGreen,
    /// Light yellow background, 103.
    BgLightYellow,
    /// Light blue background, 104.
    BgLightBlue,
    /// Light magenta background, 105.
    BgLightMagenta,
    /// Light cyan background, 106.
    BgLightCyan,
    /// Light white background, 107.
    BgLightWhite,
}

/// Whether `value` is the SGR parameter of one of the 34 colors: 30 to 37,
/// 39, 40 to 47, 49, 90 to 97 or 100 to 107.
pub open spec fn is_color_code(value: int) -> bool {
    ||| 30 <= value <= 37
    ||| value == 39
    ||| 40 <= value <= 47
    ||| value == 49
    ||| 90 <= value <= 97
    ||| 100 <= value <= 107
}

impl Color16 {
    /// The number of a color: its SGR parameter, and for `ColorNone` the
    /// largest machine word, which is the parameter of no color.
    pub open spec fn code(self) -> usize {
        match self {
            Color16::ColorNone => usize::MAX,
            Color16::FgBlack => 30,
            Color16::FgRed => 31,
            Color16::FgGreen => 32,
            Color16::FgYellow => 33,
            Color16::FgBlue => 34,
            Color16::FgMagenta => 35,
            Color16::FgCyan => 36,
            Color16::FgWhite => 37,
            Color16::FgDefault => 39,
            Color16::BgBlack => 40,
            Color16::BgRed => 41,
            Color16::BgGreen => 42,
            Color16::BgYellow => 43,
            Color16::BgBlue => 44,
            Color16::BgMagenta => 45,
            Color16::BgCyan => 46,
            Color16::BgWhite => 47,
            Color16::BgDefault => 49,
            Color16::FgDarkGray => 90,
            Color16::FgLightRed => 91,
            Color16::FgLightGreen => 92,
            Color16::FgLightYellow => 93,
            Color16::FgLightBlue => 94,
            Color16::FgLightMagenta => 95,
            Color16::FgLightCyan => 96,
            Color16::FgLightWhite => 97,
            Color16::BgDarkGray => 100,
            Color16::BgLightRed => 101,
            Color16::BgLightGreen => 102,
            Color16::BgLightYellow => 103,
            Color16::BgLightBlue => 104,
            Color16::BgLightMagenta => 105,
            Color16::BgLightCyan => 106,
            Color16::BgLightWhite => 107,
        }
    }

    /// The color of a number: the table of the 34 parameters, and
    /// `ColorNone` for every other number.
    pub open spec fn from_code(value: usize) -> Color16 {
        if value == 30 {
            Color16::FgBlack
        } else if value == 31 {
            Color16::FgRed
        } else if value == 32 {
            Color16::FgGreen
        } else if value == 33 {
            Color16::FgYellow
        } else if value == 34 {
            Color16::FgBlue
        } else if value == 35 {
            Color16::FgMagenta
        } else if value == 36 {
            Color16::FgCyan
        } else if value == 37 {
            Color16::FgWhite
        } else if value == 39 {
            Color16::FgDefault
        } else if value == 40 {
            Color16::BgBlack
        } else if value == 41 {
            Color16::BgRed
        } else if value == 42 {
            Color16::BgGreen
        } else if value == 43 {
            Color16::BgYellow
        } else if value == 44 {
            Color16::BgBlue
        } else if value == 45 {
            Color16::BgMagenta
        } else if value == 46 {
            Color16::BgCyan
        } else if value == 47 {
            Color16::BgWhite
        } else if value == 49 {
            Color16::BgDefault
        } else if value == 90 {
            Color16::FgDarkGray
        } else if value == 91 {
            Color16::FgLightRed
        } else if value == 92 {
            Color16::FgLightGreen
        } else if value == 93 {
            Color16::FgLightYellow
        } else if value == 94 {
            Color16::FgLightBlue
        } else if value == 95 {
            Color16::FgLightMagenta
        } else if value == 96 {
            Color16::FgLightCyan
        } else if value == 97 {
            Color16::FgLightWhite
        } else if value == 100 {
            Color16::BgDarkGray
        } else if value == 101 {
            Color16::BgLightRed
        } else if value == 102 {
            Color16::BgLightGreen
        } else if value == 103 {
            Color16::BgLightYellow
        } else if value == 104 {
            Color16::BgLightBlue
        } else if value == 105 {
            Color16::BgLightMagenta
        } else if value == 106 {
            Color16::BgLightCyan
        } else if value == 107 {
            Color16::BgLightWhite
        } else {
            Color16::ColorNone
        }
    }

    /// What [`Color16::lighten`] returns: the bright variant of a standard
    /// foreground, 30 to 37, or background, 40 to 47. The two defaults, 39
    /// and 49, have no bright variant and stay as they are, like the
    /// bright colors and `ColorNone`.
    pub open spec fn lightened(self) -> Color16 {
        if 30 <= self.code() <= 37 || 40 <= self.code() <= 47 {
            Color16::from_code((self.code() + BRIGHT_OFFSET) as usize)
        } else {
            self
        }
    }

    /// What [`Color16::darken`] returns.
    pub open spec fn darkened(self) -> Color16 {
        if 90 <= self.code() <= 107 {
            Color16::from_code((self.code() - BRIGHT_OFFSET) as usize)
        } else {
            self
        }
    }

    /// The SGR parameter of a color.
    pub fn color_to_usize(color16: Color16) -> (value: usize)
        ensures
            value == color16.code(),
            color16 != Color16::ColorNone ==> is_color_code(value as int),
            color16 == Color16::ColorNone ==> !is_color_code(value as int),
    {
        match color16 {
            Color16::ColorNone => usize::MAX,
            Color16::FgBlack => 30,
            Color16::FgRed => 31,
            Color16::FgGreen => 32,
            Color16::FgYellow => 33,
            Color16::FgBlue => 34,
            Color16::FgMagenta => 35,
            Color16::FgCyan => 36,
            Color16::FgWhite => 37,
            Color16::FgDefault => 39,
            Color16::BgBlack => 40,
            Color16::BgRed => 41,
            Color16::BgGreen => 42,
            Color16::BgYellow => 43,
            Color16::BgBlue => 44,
            Color16::BgMagenta => 45,
            Color16::BgCyan => 46,
            Color16::BgWhite => 47,
            Color16::BgDefault => 49,
            Color16::FgDarkGray => 90,
            Color16::FgLightRed => 91,
            Color16::FgLightGreen => 92,
            Color16::FgLightYellow => 93,
            Color16::FgLightBlue => 94,
            Color16::FgLightMagenta => 95,
            Color16::FgLightCyan => 96,
            Color16::FgLightWhite => 97,
            Color16::BgDarkGray => 100,
            Color16::BgLightRed => 101,
            Color16::BgLightGreen => 102,
            Color16::BgLightYellow => 103,
            Color16::BgLightBlue => 104,
            Color16::BgLightMagenta => 105,
            Color16::BgLightCyan => 106,
            Color16::BgLightWhite => 107,
        }
    }

    /// The color of an SGR parameter, and `ColorNone` for a number that is
    /// none: an unknown number is no error.
    pub fn usize_to_color(color16: usize) -> (color: Color16)
        ensures
            color == Color16::from_code(color16),
            is_color_code(color16 as int) ==> color.code() == color16,
            !is_color_code(color16 as int) ==> color == Color16::ColorNone,
    {
        match color16 {
            30 => Color16::FgBlack,
            31 => Color16::FgRed,
            32 => Color16::FgGreen,
            33 => Color16::FgYellow,
            34 => Color16::FgBlue,
            35 => Color16::FgMagenta,
            36 => Color16::FgCyan,
            37 => Color16::FgWhite,
            39 => Color16::FgDefault,
            40 => Color16::BgBlack,
            41 => Color16::BgRed,
            42 => Color16::BgGreen,
            43 => Color16::BgYellow,
            44 => Color16::BgBlue,
            45 => Color16::BgMagenta,
            46 => Color16::BgCyan,
            47 => Color16::BgWhite,
            49 => Color16::BgDefault,
            90 => Color16::FgDarkGray,
            91 => Color16::FgLightRed,
            92 => Color16::FgLightGreen,
            93 => Color16::FgLightYellow,
            94 => Color16::FgLightBlue,
            95 => Color16::FgLightMagenta,
            96 => Color16::FgLightCyan,
            97 => Color16::FgLightWhite,
            100 => Color16::BgDarkGray,
            101 => Color16::BgLightRed,
            102 => Color16::BgLightGreen,
            103 => Color16::BgLightYellow,
            104 => Color16::BgLightBlue,
            105 => Color16::BgLightMagenta,
            106 => Color16::BgLightCyan,
            107 => Color16::BgLightWhite,
            _ => Color16::ColorNone,
        }
    }

    /// The bright variant of a color: for a standard foreground, 30 to 37,
    /// or background, 40 to 47, the color numbered 60 higher, and every
    /// other color as it is. A color is never turned into `ColorNone`.
    pub fn lighten(&self) -> (light: Color16)
        ensures
            light == self.lightened(),
            !(30 <= self.code() <= 37 || 40 <= self.code() <= 47) ==> light == *self,
            30 <= self.code() <= 37 || 40 <= self.code() <= 47 ==> light.code() == self.code()
                + BRIGHT_OFFSET,
            light == Color16::ColorNone <==> *self == Color16::ColorNone,
    {
        let val = Color16::color_to_usize(*self);
        if (val >= 30 && val <= 37) || (val >= 40 && val <= 47) {
            return Color16::usize_to_color(val + BRIGHT_OFFSET);
        }
        *self
    }

    /// The standard variant of a color: for a color numbered 90 to 107,
    /// the color numbered 60 lower, and every other color as it is. A
    /// color is never turned into `ColorNone`.
    pub fn darken(&self) -> (dark: Color16)
        ensures
            dark == self.darkened(),
            !(90 <= self.code() <= 107) ==> dark == *self,
            90 <= self.code() <= 107 ==> dark.code() == self.code() - BRIGHT_OFFSET,
            dark == Color16::ColorNone <==> *self == Color16::ColorNone,
    {
        let val = Color16::color_to_usize(*self);
        if val >= 90 && val <= 107 {
            return Color16::usize_to_color(val - BRIGHT_OFFSET);
        }
        *self
    }
}

/// Decoding a number of the table and encoding the result gives the
/// number back.
pub proof fn lemma_decode_encode(value: usize)
    requires
        is_color_code(value as int),
    ensures
        Color16::from_code(value).code() == value,
        Color16::from_code(value) != Color16::ColorNone,
{
}

/// Encoding a color and decoding the result gives the color back; this
/// holds of `ColorNone` too.
pub proof fn lemma_encode_decode(color: Color16)
    ensures
        Color16::from_code(color.code()) == color,
        is_color_code(color.code() as int) <==> color != Color16::ColorNone,
{
}

/// A number outside the table decodes to `ColorNone`.
pub proof fn lemma_decode_unknown(value: usize)
    requires
        !is_color_code(value as int),
    ensures
        Color16::from_code(value) == Color16::ColorNone,
{
}

/// No two colors share a number.
pub proof fn lemma_code_injective(a: Color16, b: Color16)
    requires
        a.code() == b.code(),
    ensures
        a == b,
{
    lemma_encode_decode(a);
    lemma_encode_decode(b);
}

/// Darkening undoes lightening on every color numbered 30 to 47: a
/// standard color is lightened to its bright variant and darkened back to
/// itself, and the default foreground, 39, is left as it is by both.
pub proof fn lemma_darken_lighten(color: Color16)
    requires
        30 <= color.code() <= 47,
    ensures
        color.lightened().darkened() == color,
        color != Color16::FgDefault ==> color.lightened().code() == color.code()
            + BRIGHT_OFFSET,
        color == Color16::FgDefault ==> color.lightened() == color,
{
}

/// Lightening undoes darkening of a bright color.
pub proof fn lemma_lighten_darken(color: Color16)
    requires
        90 <= color.code() <= 107,
    ensures
        color.darkened().lightened() == color,
        color.darkened().code() == color.code() - BRIGHT_OFFSET,
{
}

/// Lightening leaves both defaults, the bright colors and `ColorNone` as
/// they are, and so lightening twice is lightening once. It gives
/// `ColorNone` for `ColorNone` only.
pub proof fn lemma_lighten_fixed(color: Color16)
    ensures
        color == Color16::FgDefault || color == Color16::BgDefault || 90 <= color.code() <= 107
            || color == Color16::ColorNone ==> color.lightened() == color,
        color.lightened().lightened() == color.lightened(),
        color.lightened() == Color16::ColorNone <==> color == Color16::ColorNone,
{
}

/// Darkening leaves the standard colors, both defaults and `ColorNone` as
/// they are, and so darkening twice is darkening once. It gives
/// `ColorNone` for `ColorNone` only.
pub proof fn lemma_darken_fixed(color: Color16)
    ensures
        !(90 <= color.code() <= 107) ==> color.darkened() == color,
        color.darkened().darkened() == color.darkened(),
        color.darkened() == Color16::ColorNone <==> color == Color16::ColorNone,
{
}

/// Styling of a string in two of the 16 named colors.
pub trait ColorPrinter16 {
    /// The text in the given foreground and background.
    fn print_c16(&self, foreground: Color16, background: Color16) -> String;
}

impl ColorPrinter16 for String {
    fn print_c16(&self, foreground: Color16, background: Color16) -> (out: String)
        ensures
            out@ == wrapped(c16_open(foreground.code() as nat, background.code() as nat), self@),
    {
        ColorPrinter::print_c16(
            self.as_str(),
            Color16::color_to_usize(foreground),
            Color16::color_to_usize(background),
        )
    }
}

} // verus!
