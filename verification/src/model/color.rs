//! The colors that labels and projects are shown in.

use vstd::prelude::*;
use vstd::string::StringExecFns;
use vstd::std_specs::convert::FromSpecImpl;

verus! {

/// A color of the service's palette.
#[allow(missing_docs)]
#[derive(Debug, Clone, Copy, PartialEq, Eq, Structural)]
pub enum Color {
    BerryRed,
    Red,
    Orange,
    Yellow,
    OliveGreen,
    LimeGreen,
    Green,
    MintGreen,
    Teal,
    SkyBlue,
    LightBlue,
    Blue,
    Grape,
    Violet,
    Lavender,
    Magenta,
    Salmon,
    Charcoal,
    Grey,
    Taupe,
}

impl Color {
    /// The place of the color in the palette, counted from 0.
    pub open spec fn position(self) -> int {
        match self {
            Color::BerryRed => 0,
            Color::Red => 1,
            Color::Orange => 2,
            Color::Yellow => 3,
            Color::OliveGreen => 4,
            Color::LimeGreen => 5,
            Color::Green => 6,
            Color::MintGreen => 7,
            Color::Teal => 8,
            Color::SkyBlue => 9,
            Color::LightBlue => 10,
            Color::Blue => 11,
            Color::Grape => 12,
            Color::Violet => 13,
            Color::Lavender => 14,
            Color::Magenta => 15,
            Color::Salmon => 16,
            Color::Charcoal => 17,
            Color::Grey => 18,
            Color::Taupe => 19,
        }
    }

    /// The color as `#RRGGBB`, in upper-case hexadecimal digits.
    pub open spec fn hex_text(self) -> Seq<char> {
        match self {
            Color::BerryRed => "#B8256F"@,
            Color::Red => "#DB4035"@,
            Color::Orange => "#FF9933"@,
            Color::Yellow => "#FAD000"@,
            Color::OliveGreen => "#AFB83B"@,
            Color::LimeGreen => "#7EBC00"@,
            Color::Green => "#299438"@,
            Color::MintGreen => "#6ACCBC"@,
            Color::Teal => "#158FAD"@,
            Color::SkyBlue => "#14AAF5"@,
            Color::LightBlue => "#96C3EB"@,
            Color::Blue => "#4073FF"@,
            Color::Grape => "#884DFF"@,
            Color::Violet => "#AF38EB"@,
            Color::Lavender => "#EB96EB"@,
            Color::Magenta => "#E05194"@,
            Color::Salmon => "#FF8D85"@,
            Color::Charcoal => "#808080"@,
            Color::Grey => "#B8B8B8"@,
            Color::Taupe => "#CCAC93"@,
        }
    }

    /// The name of the color.
    pub open spec fn name(self) -> Seq<char> {
        match self {
            Color::BerryRed => "BerryRed"@,
            Color::Red => "Red"@,
            Color::Orange => "Orange"@,
            Color::Yellow => "Yellow"@,
            Color::OliveGreen => "OliveGreen"@,
            Color::LimeGreen => "LimeGreen"@,
            Color::Green => "Green"@,
            Color::MintGreen => "MintGreen"@,
            Color::Teal => "Teal"@,
            Color::SkyBlue => "SkyBlue"@,
            Color::LightBlue => "LightBlue"@,
            Color::Blue => "Blue"@,
            Color::Grape => "Grape"@,
            Color::Violet => "Violet"@,
            Color::Lavender => "Lavender"@,
            Color::Magenta => "Magenta"@,
            Color::Salmon => "Salmon"@,
            Color::Charcoal => "Charcoal"@,
            Color::Grey => "Grey"@,
            Color::Taupe => "Taupe"@,
        }
    }

    /// The hexadecimal form of the color.
    pub fn get_hex(&self) -> (hex: ColorHex)
        ensures
            hex.hex@ == self.hex_text(),
    {
        let hex = match self {
            Color::BerryRed => "#B8256F",
            Color::Red => "#DB4035",
            Color::Orange => "#FF9933",
            Color::Yellow => "#FAD000",
            Color::OliveGreen => "#AFB83B",
            Color::LimeGreen => "#7EBC00",
            Color::Green => "#299438",
            Color::MintGreen => "#6ACCBC",
            Color::Teal => "#158FAD",
            Color::SkyBlue => "#14AAF5",
            Color::LightBlue => "#96C3EB",
            Color::Blue => "#4073FF",
            Color::Grape => "#884DFF",
            Color::Violet => "#AF38EB",
            Color::Lavender => "#EB96EB",
            Color::Magenta => "#E05194",
            Color::Salmon => "#FF8D85",
            Color::Charcoal => "#808080",
            Color::Grey => "#B8B8B8",
            Color::Taupe => "#CCAC93",
        };
        ColorHex { hex: String::from_str(hex) }
    }

    /// The number by which the service knows the color: the palette is numbered
    /// from 30.
    pub fn get_id(&self) -> (id: u8)
        ensures
            id == 30 + self.position(),
    {
        match self {
            Color::BerryRed => 30,
            Color::Red => 31,
            Color::Orange => 32,
            Color::Yellow => 33,
            Color::OliveGreen => 34,
            Color::LimeGreen => 35,
            Color::Green => 36,
            Color::MintGreen => 37,
            Color::Teal => 38,
            Color::SkyBlue => 39,
            Color::LightBlue => 40,
            Color::Blue => 41,
            Color::Grape => 42,
            Color::Violet => 43,
            Color::Lavender => 44,
            Color::Magenta => 45,
            Color::Salmon => 46,
            Color::Charcoal => 47,
            Color::Grey => 48,
            Color::Taupe => 49,
        }
    }

    /// The name of the color.
    pub fn to_string(&self) -> (s: String)
        ensures
            s@ == self.name(),
    {
        let name = match self {
            Color::BerryRed => "BerryRed",
            Color::Red => "Red",
            Color::Orange => "Orange",
            Color::Yellow => "Yellow",
            Color::OliveGreen => "OliveGreen",
            Color::LimeGreen => "LimeGreen",
            Color::Green => "Green",
            Color::MintGreen => "MintGreen",
            Color::Teal => "Teal",
            Color::SkyBlue => "SkyBlue",
            Color::LightBlue => "LightBlue",
            Color::Blue => "Blue",
            Color::Grape => "Grape",
            Color::Violet => "Violet",
            Color::Lavender => "Lavender",
            Color::Magenta => "Magenta",
            Color::Salmon => "Salmon",
            Color::Charcoal => "Charcoal",
            Color::Grey => "Grey",
            Color::Taupe => "Taupe",
        };
        String::from_str(name)
    }
}

/// The hexadecimal value of a color.
#[derive(Debug, Clone)]
pub struct ColorHex {
    /// The color as `#RRGGBB`.
    pub hex: String,
}

impl ColorHex {
    /// The value as it stands.
    pub fn to_string(&self) -> (s: String)
        ensures
            s@ == self.hex@,
    {
        self.hex.clone()
    }
}

impl From<Color> for ColorHex {
    fn from(value: Color) -> (hex: Self)
        ensures
            hex.hex@ == value.hex_text(),
    {
        value.get_hex()
    }
}

impl FromSpecImpl<Color> for ColorHex {
    open spec fn obeys_from_spec() -> bool {
        false
    }

    open spec fn from_spec(value: Color) -> Self {
        arbitrary()
    }
}

} // verus!
