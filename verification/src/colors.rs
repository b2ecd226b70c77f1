//! Terminal color identifiers: an 8-bit palette index, plus the named
//! palette entries that the bundled themes draw from.

use vstd::prelude::*;

use crate::text::str_eq;

verus! {

/// An opaque terminal color: an index into the 256-color palette.
#[derive(Clone, Copy, PartialEq, Eq, Structural, Debug)]
pub struct Color(pub u8);

impl Color {
    pub fn to_u8(self) -> (v: u8)
        ensures
            v == self.0,
    {
        self.0
    }

    pub fn from_u8(val: u8) -> (c: Color)
        ensures
            c.0 == val,
    {
        Color(val)
    }
}

pub fn black() -> (c: Color)
    ensures
        c.0 == 0,
{
    Color(0)
}

pub fn red() -> (c: Color)
    ensures
        c.0 == 1,
{
    Color(1)
}

pub fn light_red() -> (c: Color)
    ensures
        c.0 == 9,
{
    Color(9)
}

pub fn green() -> (c: Color)
    ensures
        c.0 == 2,
{
    Color(2)
}

pub fn light_green() -> (c: Color)
    ensures
        c.0 == 10,
{
    Color(10)
}

pub fn yellow() -> (c: Color)
    ensures
        c.0 == 3,
{
    Color(3)
}

pub fn light_yellow() -> (c: Color)
    ensures
        c.0 == 11,
{
    Color(11)
}

pub fn blue() -> (c: Color)
    ensures
        c.0 == 4,
{
    Color(4)
}

pub fn light_blue() -> (c: Color)
    ensures
        c.0 == 12,
{
    Color(12)
}

pub fn purple() -> (c: Color)
    ensures
        c.0 == 5,
{
    Color(5)
}

pub fn light_purple() -> (c: Color)
    ensures
        c.0 == 13,
{
    Color(13)
}

pub fn turquoise() -> (c: Color)
    ensures
        c.0 == 6,
{
    Color(6)
}

pub fn light_turquoise() -> (c: Color)
    ensures
        c.0 == 14,
{
    Color(14)
}

pub fn grey() -> (c: Color)
    ensures
        c.0 == 7,
{
    Color(7)
}

pub fn white() -> (c: Color)
    ensures
        c.0 == 15,
{
    Color(15)
}

pub fn dark_grey() -> (c: Color)
    ensures
        c.0 == 234,
{
    Color(234)
}

pub fn light_grey() -> (c: Color)
    ensures
        c.0 == 250,
{
    Color(250)
}

pub fn mid_grey() -> (c: Color)
    ensures
        c.0 == 240,
{
    Color(240)
}

pub fn turquoise_blue() -> (c: Color)
    ensures
        c.0 == 31,
{
    Color(31)
}

pub fn dark_green() -> (c: Color)
    ensures
        c.0 == 22,
{
    Color(22)
}

pub fn mid_green() -> (c: Color)
    ensures
        c.0 == 28,
{
    Color(28)
}

pub fn mid_red() -> (c: Color)
    ensures
        c.0 == 124,
{
    Color(124)
}

pub fn forest_green() -> (c: Color)
    ensures
        c.0 == 22,
{
    Color(22)
}

pub fn warning_red() -> (c: Color)
    ensures
        c.0 == 160,
{
    Color(160)
}

pub fn burgundy() -> (c: Color)
    ensures
        c.0 == 52,
{
    Color(52)
}

pub fn dark_red() -> (c: Color)
    ensures
        c.0 == 52,
{
    Color(52)
}

pub fn orange() -> (c: Color)
    ensures
        c.0 == 130,
{
    Color(130)
}

pub fn bright_orange() -> (c: Color)
    ensures
        c.0 == 202,
{
    Color(202)
}

pub fn dark_yellow() -> (c: Color)
    ensures
        c.0 == 136,
{
    Color(136)
}

pub fn dark_blue() -> (c: Color)
    ensures
        c.0 == 19,
{
    Color(19)
}

pub fn nice_puple() -> (c: Color)
    ensures
        c.0 == 55,
{
    Color(55)
}

pub fn burnt_orange() -> (c: Color)
    ensures
        c.0 == 214,
{
    Color(214)
}

/// The palette entry a color name denotes, if the name is known.
pub open spec fn color_by_name_spec(n: Seq<char>) -> Option<Color> {
    if n == "black"@ {
        Some(Color(0))
    } else if n == "red"@ {
        Some(Color(1))
    } else if n == "light_red"@ {
        Some(Color(9))
    } else if n == "green"@ {
        Some(Color(2))
    } else if n == "light_green"@ {
        Some(Color(10))
    } else if n == "yellow"@ {
        Some(Color(3))
    } else if n == "light_yellow"@ {
        Some(Color(11))
    } else if n == "blue"@ {
        Some(Color(4))
    } else if n == "light_blue"@ {
        Some(Color(12))
    } else if n == "purple"@ {
        Some(Color(5))
    } else if n == "light_purple"@ {
        Some(Color(13))
    } else if n == "turquoise"@ {
        Some(Color(6))
    } else if n == "light_turquoise"@ {
        Some(Color(14))
    } else if n == "grey"@ {
        Some(Color(7))
    } else if n == "white"@ {
        Some(Color(15))
    } else if n == "dark_grey"@ {
        Some(Color(234))
    } else if n == "light_grey"@ {
        Some(Color(250))
    } else if n == "mid_grey"@ {
        Some(Color(240))
    } else if n == "turquoise_blue"@ {
        Some(Color(31))
    } else if n == "dark_green"@ {
        Some(Color(22))
    } else if n == "mid_green"@ {
        Some(Color(28))
    } else if n == "mid_red"@ {
        Some(Color(124))
    } else if n == "forest_green"@ {
        Some(Color(22))
    } else if n == "warning_red"@ {
        Some(Color(160))
    } else if n == "burgundy"@ {
        Some(Color(52))
    } else if n == "dark_red"@ {
        Some(Color(52))
    } else if n == "orange"@ {
        Some(Color(130))
    } else if n == "bright_orange"@ {
        Some(Color(202))
    } else if n == "dark_yellow"@ {
        Some(Color(136))
    } else if n == "dark_blue"@ {
        Some(Color(19))
    } else if n == "nice_puple"@ {
        Some(Color(55))
    } else if n == "burnt_orange"@ {
        Some(Color(214))
    } else {
        None
    }
}

impl Color {
    /// The palette entry a color name denotes, if the name is known.
    pub fn from_name(name: &str) -> (r: Option<Color>)
        ensures
            r == color_by_name_spec(name@),
    {
        if str_eq(name, "black") {
            Some(Color(0))
        } else if str_eq(name, "red") {
            Some(Color(1))
        } else if str_eq(name, "light_red") {
            Some(Color(9))
        } else if str_eq(name, "green") {
            Some(Color(2))
        } else if str_eq(name, "light_green") {
            Some(Color(10))
        } else if str_eq(name, "yellow") {
            Some(Color(3))
        } else if str_eq(name, "light_yellow") {
            Some(Color(11))
        } else if str_eq(name, "blue") {
            Some(Color(4))
        } else if str_eq(name, "light_blue") {
            Some(Color(12))
        } else if str_eq(name, "purple") {
            Some(Color(5))
        } else if str_eq(name, "light_purple") {
            Some(Color(13))
        } else if str_eq(name, "turquoise") {
            Some(Color(6))
        } else if str_eq(name, "light_turquoise") {
            Some(Color(14))
        } else if str_eq(name, "grey") {
            Some(Color(7))
        } else if str_eq(name, "white") {
            Some(Color(15))
        } else if str_eq(name, "dark_grey") {
            Some(Color(234))
        } else if str_eq(name, "light_grey") {
            Some(Color(250))
        } else if str_eq(name, "mid_grey") {
            Some(Color(240))
        } else if str_eq(name, "turquoise_blue") {
            Some(Color(31))
        } else if str_eq(name, "dark_green") {
            Some(Color(22))
        } else if str_eq(name, "mid_green") {
            Some(Color(28))
        } else if str_eq(name, "mid_red") {
            Some(Color(124))
        } else if str_eq(name, "forest_green") {
            Some(Color(22))
        } else if str_eq(name, "warning_red") {
            Some(Color(160))
        } else if str_eq(name, "burgundy") {
            Some(Color(52))
        } else if str_eq(name, "dark_red") {
            Some(Color(52))
        } else if str_eq(name, "orange") {
            Some(Color(130))
        } else if str_eq(name, "bright_orange") {
            Some(Color(202))
        } else if str_eq(name, "dark_yellow") {
            Some(Color(136))
        } else if str_eq(name, "dark_blue") {
            Some(Color(19))
        } else if str_eq(name, "nice_puple") {
            Some(Color(55))
        } else if str_eq(name, "burnt_orange") {
            Some(Color(214))
        } else {
            None
        }
    }
}

} // verus!
