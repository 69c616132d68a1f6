use vstd::prelude::*;

verus! {

/// One entry of the sixteen-colour palette, named in palette order:
/// `Transparent` is index 0 and `White` is index 15.
#[derive(Clone, Copy, Debug, PartialEq, Eq, Structural)]
pub enum Color {
    Transparent,
    Black,
    Gray,
    Red,
    Pink,
    DarkBrown,
    Brown,
    Orange,
    Yelow,
    Green,
    LightGreen,
    DarkBlue,
    Blue,
    LightBlue,
    SkyBlue,
    White,
}

/// Packed value of the only bright palette entry.
pub const WHITE_PACKED: u32 = 0xFFFF_FFFF;

/// Packed value shared by every other palette entry.
pub const DARK_PACKED: u32 = 0x0000_0000;

impl Color {
    /// The palette entry selected by `index`. Indices 1 to 15 select the
    /// opaque entries in order; every other value selects `Transparent`.
    pub open spec fn of_index(index: u8) -> Color {
        match index {
            1 => Color::Black,
            2 => Color::Gray,
            3 => Color::Red,
            4 => Color::Pink,
            5 => Color::DarkBrown,
            6 => Color::Brown,
            7 => Color::Orange,
            8 => Color::Yelow,
            9 => Color::Green,
            10 => Color::LightGreen,
            11 => Color::DarkBlue,
            12 => Color::Blue,
            13 => Color::LightBlue,
            14 => Color::SkyBlue,
            15 => Color::White,
            _ => Color::Transparent,
        }
    }

    /// Position of this entry in the palette, between 0 and 15.
    pub open spec fn index_spec(self) -> u8 {
        match self {
            Color::Transparent => 0,
            Color::Black => 1,
            Color::Gray => 2,
            Color::Red => 3,
            Color::Pink => 4,
            Color::DarkBrown => 5,
            Color::Brown => 6,
            Color::Orange => 7,
            Color::Yelow => 8,
            Color::Green => 9,
            Color::LightGreen => 10,
            Color::DarkBlue => 11,
            Color::Blue => 12,
            Color::LightBlue => 13,
            Color::SkyBlue => 14,
            Color::White => 15,
        }
    }

    /// The 32-bit value a framebuffer cell holds when it shows this entry.
    pub open spec fn packed(self) -> u32 {
        match self {
            Color::White => WHITE_PACKED,
            _ => DARK_PACKED,
        }
    }

    /// Position of this entry in the palette.
    #[verifier::when_used_as_spec(index_spec)]
    pub fn index(self) -> (i: u8)
        ensures
            i == self.index_spec(),
            i < 16,
            Color::of_index(i) == self,
    {
        match self {
            Color::Transparent => 0,
            Color::Black => 1,
            Color::Gray => 2,
            Color::Red => 3,
            Color::Pink => 4,
            Color::DarkBrown => 5,
            Color::Brown => 6,
            Color::Orange => 7,
            Color::Yelow => 8,
            Color::Green => 9,
            Color::LightGreen => 10,
            Color::DarkBlue => 11,
            Color::Blue => 12,
            Color::LightBlue => 13,
            Color::SkyBlue => 14,
            Color::White => 15,
        }
    }
}

impl From<u8> for Color {
    fn from(val: u8) -> (c: Color) {
        match val {
            0x1 => Color::Black,
            0x2 => Color::Gray,
            0x3 => Color::Red,
            0x4 => Color::Pink,
            0x5 => Color::DarkBrown,
            0x6 => Color::Brown,
            0x7 => Color::Orange,
            0x8 => Color::Yelow,
            0x9 => Color::Green,
            0xA => Color::LightGreen,
            0xB => Color::DarkBlue,
            0xC => Color::Blue,
            0xD => Color::LightBlue,
            0xE => Color::SkyBlue,
            0xF => Color::White,
            _ => Color::Transparent,
        }
    }
}

impl vstd::std_specs::convert::FromSpecImpl<u8> for Color {
    open spec fn obeys_from_spec() -> bool {
        true
    }

    open spec fn from_spec(val: u8) -> Color {
        Color::of_index(val)
    }
}

impl From<Color> for u32 {
    fn from(color: Color) -> (packed: u32) {
        match color {
            Color::White => WHITE_PACKED,
            _ => DARK_PACKED,
        }
    }
}

impl vstd::std_specs::convert::FromSpecImpl<Color> for u32 {
    open spec fn obeys_from_spec() -> bool {
        true
    }

    open spec fn from_spec(color: Color) -> u32 {
        color.packed()
    }
}

/// Every palette index names exactly one entry: the index of the entry
/// selected by `i` is `i` again, for each `i` below 16.
pub proof fn lemma_index_of_index(i: u8)
    requires
        i < 16,
    ensures
        Color::of_index(i).index_spec() == i,
{
}

} // verus!
