//! Colors of four channels of eight bits each.
use crate::digits::decimal_text;
use crate::primary::{Primary, PrimaryColor};
use vstd::prelude::*;
use vstd::string::StringExecFns;

verus! {

/// This struct represents colors in 8-bit precision as separate red, green
/// and blue channels, with an alpha channel for transparency.
#[derive(Clone, Copy, Debug, PartialEq, Eq, Structural)]
pub struct ReducedRGBA {
    pub red: u8,
    pub green: u8,
    pub blue: u8,
    pub alpha: u8,
}

impl ReducedRGBA {
    /// The named color, fully opaque: 255 in each of red, green and blue
    /// that the color has, 0 in the others, and an alpha of 255.
    pub open spec fn named(color: PrimaryColor) -> Self {
        ReducedRGBA {
            red: if color.has_red() {
                255
            } else {
                0
            },
            green: if color.has_green() {
                255
            } else {
                0
            },
            blue: if color.has_blue() {
                255
            } else {
                0
            },
            alpha: 255,
        }
    }

    /// The text that shows the color to a reader.
    pub open spec fn display_text(self) -> Seq<char> {
        "RGBA("@ + decimal_text(self.red as nat) + ", "@ + decimal_text(self.green as nat)
            + ", "@ + decimal_text(self.blue as nat) + ", "@ + decimal_text(self.alpha as nat)
            + ")"@
    }

    /// Shows the color as `RGBA(r, g, b, a)`, each channel in base ten.
    pub fn to_string(&self) -> (s: String)
        ensures
            s@ == self.display_text(),
    {
        let mut s = String::from_str("RGBA(");
        crate::digits::append_decimal(&mut s, self.red as u64);
        s.append(", ");
        crate::digits::append_decimal(&mut s, self.green as u64);
        s.append(", ");
        crate::digits::append_decimal(&mut s, self.blue as u64);
        s.append(", ");
        crate::digits::append_decimal(&mut s, self.alpha as u64);
        s.append(")");
        s
    }
}

impl Primary for ReducedRGBA {
    fn primary(color: PrimaryColor) -> (r: Self)
        ensures
            r == Self::named(color),
    {
        Self {
            red: match color {
                PrimaryColor::Black
                | PrimaryColor::Green
                | PrimaryColor::Blue
                | PrimaryColor::Cyan => 0,
                _ => 255,
            },
            green: match color {
                PrimaryColor::Black
                | PrimaryColor::Red
                | PrimaryColor::Blue
                | PrimaryColor::Magenta => 0,
                _ => 255,
            },
            blue: match color {
                PrimaryColor::Black
                | PrimaryColor::Red
                | PrimaryColor::Green
                | PrimaryColor::Yellow => 0,
                _ => 255,
            },
            alpha: 255,
        }
    }
}

} // verus!
