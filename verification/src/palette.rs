//! The Gruvbox colour palette used across the service.
//!
//! Colours are described structurally (neutral/accent, dark/light, shade)
//! and can be mapped to a terminal colour index or to their CSS hex string.

use vstd::prelude::*;

verus! {

#[derive(Debug, PartialEq, Eq, Clone, Copy, Structural)]
pub enum GruvboxColor {
    Neutral(GruvboxNeutral),
    Accent(GruvboxAccent),
}

#[derive(Debug, PartialEq, Eq, Clone, Copy, Structural)]
pub enum GruvboxNeutral {
    Dark(Shade),
    Light(Shade),
}

#[derive(Debug, PartialEq, Eq, Clone, Copy, Structural)]
pub enum Shade {
    Darkest,
    Darker,
    Lighter,
    Lightest,
}

#[derive(Debug, PartialEq, Eq, Clone, Copy, Structural)]
pub enum GruvboxAccent {
    Red,
    BurntOrange,
    Orange,
    Yellow,
    Green,
    Teal,
    Blue,
    Pink,
}

impl GruvboxColor {
    pub fn default_fg() -> (c: Self)
        ensures
            c == GruvboxColor::Neutral(GruvboxNeutral::Light(Shade::Lighter)),
    {
        Self::light_3()
    }

    pub fn default_bg() -> (c: Self)
        ensures
            c == GruvboxColor::Neutral(GruvboxNeutral::Dark(Shade::Darker)),
    {
        Self::dark_2()
    }

    pub fn dark_1() -> (c: Self)
        ensures
            c == GruvboxColor::Neutral(GruvboxNeutral::Dark(Shade::Darkest)),
    {
        GruvboxColor::Neutral(GruvboxNeutral::Dark(Shade::Darkest))
    }

    pub fn dark_2() -> (c: Self)
        ensures
            c == GruvboxColor::Neutral(GruvboxNeutral::Dark(Shade::Darker)),
    {
        GruvboxColor::Neutral(GruvboxNeutral::Dark(Shade::Darker))
    }

    pub fn dark_3() -> (c: Self)
        ensures
            c == GruvboxColor::Neutral(GruvboxNeutral::Dark(Shade::Lighter)),
    {
        GruvboxColor::Neutral(GruvboxNeutral::Dark(Shade::Lighter))
    }

    pub fn dark_4() -> (c: Self)
        ensures
            c == GruvboxColor::Neutral(GruvboxNeutral::Dark(Shade::Lightest)),
    {
        GruvboxColor::Neutral(GruvboxNeutral::Dark(Shade::Lightest))
    }

    pub fn light_1() -> (c: Self)
        ensures
            c == GruvboxColor::Neutral(GruvboxNeutral::Light(Shade::Darkest)),
    {
        GruvboxColor::Neutral(GruvboxNeutral::Light(Shade::Darkest))
    }

    pub fn light_2() -> (c: Self)
        ensures
            c == GruvboxColor::Neutral(GruvboxNeutral::Light(Shade::Darker)),
    {
        GruvboxColor::Neutral(GruvboxNeutral::Light(Shade::Darker))
    }

    pub fn light_3() -> (c: Self)
        ensures
            c == GruvboxColor::Neutral(GruvboxNeutral::Light(Shade::Lighter)),
    {
        GruvboxColor::Neutral(GruvboxNeutral::Light(Shade::Lighter))
    }

    pub fn light_4() -> (c: Self)
        ensures
            c == GruvboxColor::Neutral(GruvboxNeutral::Light(Shade::Lightest)),
    {
        GruvboxColor::Neutral(GruvboxNeutral::Light(Shade::Lightest))
    }

    pub fn red() -> (c: Self)
        ensures
            c == GruvboxColor::Accent(GruvboxAccent::Red),
    {
        GruvboxColor::Accent(GruvboxAccent::Red)
    }

    pub fn burnt_orange() -> (c: Self)
        ensures
            c == GruvboxColor::Accent(GruvboxAccent::BurntOrange),
    {
        GruvboxColor::Accent(GruvboxAccent::BurntOrange)
    }

    pub fn orange() -> (c: Self)
        ensures
            c == GruvboxColor::Accent(GruvboxAccent::Orange),
    {
        GruvboxColor::Accent(GruvboxAccent::Orange)
    }

    pub fn yellow() -> (c: Self)
        ensures
            c == GruvboxColor::Accent(GruvboxAccent::Yellow),
    {
        GruvboxColor::Accent(GruvboxAccent::Yellow)
    }

    pub fn green() -> (c: Self)
        ensures
            c == GruvboxColor::Accent(GruvboxAccent::Green),
    {
        GruvboxColor::Accent(GruvboxAccent::Green)
    }

    pub fn teal() -> (c: Self)
        ensures
            c == GruvboxColor::Accent(GruvboxAccent::Teal),
    {
        GruvboxColor::Accent(GruvboxAccent::Teal)
    }

    pub fn blue() -> (c: Self)
        ensures
            c == GruvboxColor::Accent(GruvboxAccent::Blue),
    {
        GruvboxColor::Accent(GruvboxAccent::Blue)
    }

    pub fn pink() -> (c: Self)
        ensures
            c == GruvboxColor::Accent(GruvboxAccent::Pink),
    {
        GruvboxColor::Accent(GruvboxAccent::Pink)
    }

    /// The CSS hex string of a colour, as a spec-level sequence.
    pub open spec fn spec_hex_str(self) -> Seq<char> {
        match self {
            GruvboxColor::Neutral(GruvboxNeutral::Dark(Shade::Darkest)) => "#1d2021"@,
            GruvboxColor::Neutral(GruvboxNeutral::Dark(Shade::Darker)) => "#3c3836"@,
            GruvboxColor::Neutral(GruvboxNeutral::Dark(Shade::Lighter)) => "#504945"@,
            GruvboxColor::Neutral(GruvboxNeutral::Dark(Shade::Lightest)) => "#665c54"@,
            GruvboxColor::Neutral(GruvboxNeutral::Light(Shade::Darkest)) => "#bdae93"@,
            GruvboxColor::Neutral(GruvboxNeutral::Light(Shade::Darker)) => "#d5c4a1"@,
            GruvboxColor::Neutral(GruvboxNeutral::Light(Shade::Lighter)) => "#ebdbb2"@,
            GruvboxColor::Neutral(GruvboxNeutral::Light(Shade::Lightest)) => "#fbf1c7"@,
            GruvboxColor::Accent(GruvboxAccent::Red) => "#fb4934"@,
            GruvboxColor::Accent(GruvboxAccent::BurntOrange) => "#d65d0e"@,
            GruvboxColor::Accent(GruvboxAccent::Orange) => "#fe8019"@,
            GruvboxColor::Accent(GruvboxAccent::Yellow) => "#fabd2f"@,
            GruvboxColor::Accent(GruvboxAccent::Green) => "#b8bb26"@,
            GruvboxColor::Accent(GruvboxAccent::Teal) => "#8ec07c"@,
            GruvboxColor::Accent(GruvboxAccent::Blue) => "#83a598"@,
            GruvboxColor::Accent(GruvboxAccent::Pink) => "#d3869b"@,
        }
    }

    /// The CSS hex string of this colour.
    pub fn hex_str(&self) -> (r: &'static str)
        ensures
            r@ == self.spec_hex_str(),
    {
        match self {
            GruvboxColor::Neutral(GruvboxNeutral::Dark(Shade::Darkest)) => "#1d2021",
            GruvboxColor::Neutral(GruvboxNeutral::Dark(Shade::Darker)) => "#3c3836",
            GruvboxColor::Neutral(GruvboxNeutral::Dark(Shade::Lighter)) => "#504945",
            GruvboxColor::Neutral(GruvboxNeutral::Dark(Shade::Lightest)) => "#665c54",
            GruvboxColor::Neutral(GruvboxNeutral::Light(Shade::Darkest)) => "#bdae93",
            GruvboxColor::Neutral(GruvboxNeutral::Light(Shade::Darker)) => "#d5c4a1",
            GruvboxColor::Neutral(GruvboxNeutral::Light(Shade::Lighter)) => "#ebdbb2",
            GruvboxColor::Neutral(GruvboxNeutral::Light(Shade::Lightest)) => "#fbf1c7",
            GruvboxColor::Accent(GruvboxAccent::Red) => "#fb4934",
            GruvboxColor::Accent(GruvboxAccent::BurntOrange) => "#d65d0e",
            GruvboxColor::Accent(GruvboxAccent::Orange) => "#fe8019",
            GruvboxColor::Accent(GruvboxAccent::Yellow) => "#fabd2f",
            GruvboxColor::Accent(GruvboxAccent::Green) => "#b8bb26",
            GruvboxColor::Accent(GruvboxAccent::Teal) => "#8ec07c",
            GruvboxColor::Accent(GruvboxAccent::Blue) => "#83a598",
            GruvboxColor::Accent(GruvboxAccent::Pink) => "#d3869b",
        }
    }

    /// The index of a colour in the terminal palette.
    pub open spec fn spec_color_index(self) -> u8 {
        match self {
            GruvboxColor::Neutral(GruvboxNeutral::Dark(Shade::Darkest)) => 0,
            GruvboxColor::Neutral(GruvboxNeutral::Dark(Shade::Darker)) => 1,
            GruvboxColor::Neutral(GruvboxNeutral::Dark(Shade::Lighter)) => 2,
            GruvboxColor::Neutral(GruvboxNeutral::Dark(Shade::Lightest)) => 3,
            GruvboxColor::Neutral(GruvboxNeutral::Light(Shade::Darkest)) => 4,
            GruvboxColor::Neutral(GruvboxNeutral::Light(Shade::Darker)) => 5,
            GruvboxColor::Neutral(GruvboxNeutral::Light(Shade::Lighter)) => 6,
            GruvboxColor::Neutral(GruvboxNeutral::Light(Shade::Lightest)) => 7,
            GruvboxColor::Accent(GruvboxAccent::Red) => 8,
            GruvboxColor::Accent(GruvboxAccent::Orange) => 9,
            GruvboxColor::Accent(GruvboxAccent::Yellow) => 10,
            GruvboxColor::Accent(GruvboxAccent::Green) => 11,
            GruvboxColor::Accent(GruvboxAccent::Teal) => 12,
            GruvboxColor::Accent(GruvboxAccent::Blue) => 13,
            GruvboxColor::Accent(GruvboxAccent::Pink) => 14,
            GruvboxColor::Accent(GruvboxAccent::BurntOrange) => 15,
        }
    }

    /// Maps this colour to its index in the terminal palette.
    pub fn color_index(self) -> (i: u8)
        ensures
            i == self.spec_color_index(),
            i <= 15,
    {
        match self {
            GruvboxColor::Neutral(GruvboxNeutral::Dark(Shade::Darkest)) => 0,
            GruvboxColor::Neutral(GruvboxNeutral::Dark(Shade::Darker)) => 1,
            GruvboxColor::Neutral(GruvboxNeutral::Dark(Shade::Lighter)) => 2,
            GruvboxColor::Neutral(GruvboxNeutral::Dark(Shade::Lightest)) => 3,
            GruvboxColor::Neutral(GruvboxNeutral::Light(Shade::Darkest)) => 4,
            GruvboxColor::Neutral(GruvboxNeutral::Light(Shade::Darker)) => 5,
            GruvboxColor::Neutral(GruvboxNeutral::Light(Shade::Lighter)) => 6,
            GruvboxColor::Neutral(GruvboxNeutral::Light(Shade::Lightest)) => 7,
            GruvboxColor::Accent(GruvboxAccent::Red) => 8,
            GruvboxColor::Accent(GruvboxAccent::Orange) => 9,
            GruvboxColor::Accent(GruvboxAccent::Yellow) => 10,
            GruvboxColor::Accent(GruvboxAccent::Green) => 11,
            GruvboxColor::Accent(GruvboxAccent::Teal) => 12,
            GruvboxColor::Accent(GruvboxAccent::Blue) => 13,
            GruvboxColor::Accent(GruvboxAccent::Pink) => 14,
            GruvboxColor::Accent(GruvboxAccent::BurntOrange) => 15,
        }
    }
}

/// The colour stored at a palette index.
///
/// Note that the palette order (red, burnt orange, orange, ...) differs from
/// the terminal-index order of [`GruvboxColor::color_index`] (red, orange,
/// ..., burnt orange); both reproduce the tables used by the service.
pub open spec fn spec_indexed_gruvbox(i: u8) -> GruvboxColor {
    match i {
        0u8 => GruvboxColor::Neutral(GruvboxNeutral::Dark(Shade::Darkest)),
        1u8 => GruvboxColor::Neutral(GruvboxNeutral::Dark(Shade::Darker)),
        2u8 => GruvboxColor::Neutral(GruvboxNeutral::Dark(Shade::Lighter)),
        3u8 => GruvboxColor::Neutral(GruvboxNeutral::Dark(Shade::Lightest)),
        4u8 => GruvboxColor::Neutral(GruvboxNeutral::Light(Shade::Darkest)),
        5u8 => GruvboxColor::Neutral(GruvboxNeutral::Light(Shade::Darker)),
        6u8 => GruvboxColor::Neutral(GruvboxNeutral::Light(Shade::Lighter)),
        7u8 => GruvboxColor::Neutral(GruvboxNeutral::Light(Shade::Lightest)),
        8u8 => GruvboxColor::Accent(GruvboxAccent::Red),
        9u8 => GruvboxColor::Accent(GruvboxAccent::BurntOrange),
        10u8 => GruvboxColor::Accent(GruvboxAccent::Orange),
        11u8 => GruvboxColor::Accent(GruvboxAccent::Yellow),
        12u8 => GruvboxColor::Accent(GruvboxAccent::Green),
        13u8 => GruvboxColor::Accent(GruvboxAccent::Teal),
        14u8 => GruvboxColor::Accent(GruvboxAccent::Blue),
        _ => GruvboxColor::Accent(GruvboxAccent::Pink),
    }
}

/// Looks a colour up by palette index. Indices run from 0 to 15.
pub fn indexed_gruvbox(i: u8) -> (c: GruvboxColor)
    requires
        i <= 15,
    ensures
        c == spec_indexed_gruvbox(i),
{
    match i {
        0 => GruvboxColor::Neutral(GruvboxNeutral::Dark(Shade::Darkest)),
        1 => GruvboxColor::Neutral(GruvboxNeutral::Dark(Shade::Darker)),
        2 => GruvboxColor::Neutral(GruvboxNeutral::Dark(Shade::Lighter)),
        3 => GruvboxColor::Neutral(GruvboxNeutral::Dark(Shade::Lightest)),
        4 => GruvboxColor::Neutral(GruvboxNeutral::Light(Shade::Darkest)),
        5 => GruvboxColor::Neutral(GruvboxNeutral::Light(Shade::Darker)),
        6 => GruvboxColor::Neutral(GruvboxNeutral::Light(Shade::Lighter)),
        7 => GruvboxColor::Neutral(GruvboxNeutral::Light(Shade::Lightest)),
        8 => GruvboxColor::Accent(GruvboxAccent::Red),
        9 => GruvboxColor::Accent(GruvboxAccent::BurntOrange),
        10 => GruvboxColor::Accent(GruvboxAccent::Orange),
        11 => GruvboxColor::Accent(GruvboxAccent::Yellow),
        12 => GruvboxColor::Accent(GruvboxAccent::Green),
        13 => GruvboxColor::Accent(GruvboxAccent::Teal),
        14 => GruvboxColor::Accent(GruvboxAccent::Blue),
        _ => GruvboxColor::Accent(GruvboxAccent::Pink),
    }
}

/// The CSS hex string stored at a palette index. Indices run from 0 to 15.
pub fn indexed_color_str(i: u8) -> (r: &'static str)
    requires
        i <= 15,
    ensures
        r@ == spec_indexed_gruvbox(i).spec_hex_str(),
{
    match i {
        0 => "#1d2021",
        1 => "#3c3836",
        2 => "#504945",
        3 => "#665c54",
        4 => "#bdae93",
        5 => "#d5c4a1",
        6 => "#ebdbb2",
        7 => "#fbf1c7",
        8 => "#fb4934",
        9 => "#d65d0e",
        10 => "#fe8019",
        11 => "#fabd2f",
        12 => "#b8bb26",
        13 => "#8ec07c",
        14 => "#83a598",
        _ => "#d3869b",
    }
}

/// Error returned when an RGB triple is not a Gruvbox palette colour.
#[derive(Debug, PartialEq, Eq, Clone, Copy, Structural)]
pub struct ColorError;

/// The palette colour of an RGB triple, where one exists.
pub open spec fn spec_gruvbox_of_rgb(r: u8, g: u8, b: u8) -> Option<GruvboxColor> {
    if r == 0x1d && g == 0x20 && b == 0x21 {
        Some(GruvboxColor::Neutral(GruvboxNeutral::Dark(Shade::Darkest)))
    } else if r == 0x3c && g == 0x38 && b == 0x36 {
        Some(GruvboxColor::Neutral(GruvboxNeutral::Dark(Shade::Darker)))
    } else if r == 0x50 && g == 0x49 && b == 0x45 {
        Some(GruvboxColor::Neutral(GruvboxNeutral::Dark(Shade::Lighter)))
    } else if r == 0x66 && g == 0x5c && b == 0x54 {
        Some(GruvboxColor::Neutral(GruvboxNeutral::Dark(Shade::Lightest)))
    } else if r == 0xbd && g == 0xae && b == 0x93 {
        Some(GruvboxColor::Neutral(GruvboxNeutral::Light(Shade::Darkest)))
    } else if r == 0xd5 && g == 0xc4 && b == 0xa1 {
        Some(GruvboxColor::Neutral(GruvboxNeutral::Light(Shade::Darker)))
    } else if r == 0xeb && g == 0xdb && b == 0xb2 {
        Some(GruvboxColor::Neutral(GruvboxNeutral::Light(Shade::Lighter)))
    } else if r == 0xfb && g == 0xf1 && b == 0xc7 {
        Some(GruvboxColor::Neutral(GruvboxNeutral::Light(Shade::Lightest)))
    } else if r == 0xfb && g == 0x49 && b == 0x34 {
        Some(GruvboxColor::Accent(GruvboxAccent::Red))
    } else if r == 0xd6 && g == 0x5d && b == 0x0e {
        Some(GruvboxColor::Accent(GruvboxAccent::BurntOrange))
    } else if r == 0xfe && g == 0x80 && b == 0x19 {
        Some(GruvboxColor::Accent(GruvboxAccent::Orange))
    } else if r == 0xfa && g == 0xbd && b == 0x2f {
        Some(GruvboxColor::Accent(GruvboxAccent::Yellow))
    } else if r == 0xb8 && g == 0xbb && b == 0x26 {
        Some(GruvboxColor::Accent(GruvboxAccent::Green))
    } else if r == 0x8e && g == 0xc0 && b == 0x7c {
        Some(GruvboxColor::Accent(GruvboxAccent::Teal))
    } else if r == 0x83 && g == 0xa5 && b == 0x98 {
        Some(GruvboxColor::Accent(GruvboxAccent::Blue))
    } else if r == 0xd3 && g == 0x86 && b == 0x9b {
        Some(GruvboxColor::Accent(GruvboxAccent::Pink))
    } else {
        None
    }
}

/// Maps an RGB triple back to the palette colour with those components,
/// or reports that the triple is not in the palette.
pub fn gruvbox_from_rgb(r: u8, g: u8, b: u8) -> (c: Result<GruvboxColor, ColorError>)
    ensures
        match c {
            Ok(color) => spec_gruvbox_of_rgb(r, g, b) == Some(color),
            Err(e) => spec_gruvbox_of_rgb(r, g, b) is None && e == ColorError,
        },
{
    if r == 0x1d && g == 0x20 && b == 0x21 {
        Ok(GruvboxColor::Neutral(GruvboxNeutral::Dark(Shade::Darkest)))
    } else if r == 0x3c && g == 0x38 && b == 0x36 {
        Ok(GruvboxColor::Neutral(GruvboxNeutral::Dark(Shade::Darker)))
    } else if r == 0x50 && g == 0x49 && b == 0x45 {
        Ok(GruvboxColor::Neutral(GruvboxNeutral::Dark(Shade::Lighter)))
    } else if r == 0x66 && g == 0x5c && b == 0x54 {
        Ok(GruvboxColor::Neutral(GruvboxNeutral::Dark(Shade::Lightest)))
    } else if r == 0xbd && g == 0xae && b == 0x93 {
        Ok(GruvboxColor::Neutral(GruvboxNeutral::Light(Shade::Darkest)))
    } else if r == 0xd5 && g == 0xc4 && b == 0xa1 {
        Ok(GruvboxColor::Neutral(GruvboxNeutral::Light(Shade::Darker)))
    } else if r == 0xeb && g == 0xdb && b == 0xb2 {
        Ok(GruvboxColor::Neutral(GruvboxNeutral::Light(Shade::Lighter)))
    } else if r == 0xfb && g == 0xf1 && b == 0xc7 {
        Ok(GruvboxColor::Neutral(GruvboxNeutral::Light(Shade::Lightest)))
    } else if r == 0xfb && g == 0x49 && b == 0x34 {
        Ok(GruvboxColor::Accent(GruvboxAccent::Red))
    } else if r == 0xd6 && g == 0x5d && b == 0x0e {
        Ok(GruvboxColor::Accent(GruvboxAccent::BurntOrange))
    } else if r == 0xfe && g == 0x80 && b == 0x19 {
        Ok(GruvboxColor::Accent(GruvboxAccent::Orange))
    } else if r == 0xfa && g == 0xbd && b == 0x2f {
        Ok(GruvboxColor::Accent(GruvboxAccent::Yellow))
    } else if r == 0xb8 && g == 0xbb && b == 0x26 {
        Ok(GruvboxColor::Accent(GruvboxAccent::Green))
    } else if r == 0x8e && g == 0xc0 && b == 0x7c {
        Ok(GruvboxColor::Accent(GruvboxAccent::Teal))
    } else if r == 0x83 && g == 0xa5 && b == 0x98 {
        Ok(GruvboxColor::Accent(GruvboxAccent::Blue))
    } else if r == 0xd3 && g == 0x86 && b == 0x9b {
        Ok(GruvboxColor::Accent(GruvboxAccent::Pink))
    } else {
        Err(ColorError)
    }
}

} // verus!
