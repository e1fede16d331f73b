//! Colors of three channels, without transparency.
use crate::channel::{
    bound_error, check_bounds, clamp, clamped, or_else, within_bounds, Channel, ColorChannel,
};
use crate::colorerror::ColorError;
use crate::hex::{shape_error, validate_hex_string, Hex};
use crate::primary::{Primary, PrimaryColor};
use vstd::prelude::*;
use vstd::std_specs::cmp::{PartialEqSpec, PartialEqSpecImpl};
use vstd::std_specs::convert::FromSpecImpl;
use vstd::string::{StrSliceExecFns, StringExecFns};
use vstd::utf8::is_ascii_chars;

verus! {

/// Represents a color as red, green and blue channels with no transparency.
#[derive(Clone, Copy, Debug, Default, Eq)]
pub struct RGB<T: ColorChannel> {
    pub red: T,
    pub green: T,
    pub blue: T,
}

impl<T: ColorChannel> RGB<T> {
    /// Every channel is within the range of the channel type.
    pub open spec fn is_valid(self) -> bool {
        within_bounds(self.red) && within_bounds(self.green) && within_bounds(self.blue)
    }

    /// The error of the first channel, in the order red, green, blue, that
    /// is outside the range of the channel type.
    pub open spec fn violation(self) -> Option<ColorError> {
        or_else(bound_error(self.red), or_else(bound_error(self.green), bound_error(self.blue)))
    }

    /// The named color: each channel at the upper limit where the color has
    /// it, and at the lower limit where it has not.
    pub open spec fn named(color: PrimaryColor) -> Self {
        RGB {
            red: if color.has_red() {
                T::highest()
            } else {
                T::lowest()
            },
            green: if color.has_green() {
                T::highest()
            } else {
                T::lowest()
            },
            blue: if color.has_blue() {
                T::highest()
            } else {
                T::lowest()
            },
        }
    }

    /// Creates a new instance from channels that are all within the range.
    ///
    /// The channels are checked in the order red, green, blue, each against
    /// `MIN` first. The first one outside the range decides the error:
    /// `OutsideBoundsNegative` if it is less than `MIN`, `OutsideBoundsHigh`
    /// if it is greater than `MAX`.
    pub fn try_new(red: T, green: T, blue: T) -> (r: Result<Self, ColorError>)
        ensures
            match (RGB { red, green, blue }).violation() {
                Some(e) => r == Err::<Self, ColorError>(e),
                None => r == Ok::<Self, ColorError>(RGB { red, green, blue }),
            },
            r is Ok <==> (RGB { red, green, blue }).is_valid(),
    {
        check_bounds(red)?;
        check_bounds(green)?;
        check_bounds(blue)?;
        Ok(Self { red, green, blue })
    }

    /// Creates a new instance infallibly. A channel under `MIN` becomes `MIN`,
    /// one over `MAX` becomes `MAX`, and any other stays as it is.
    pub fn new(red: T, green: T, blue: T) -> (r: Self)
        ensures
            r == (RGB { red: clamped(red), green: clamped(green), blue: clamped(blue) }),
            r.is_valid(),
    {
        proof {
            T::limits_are_within_bounds();
        }
        Self { red: clamp(red), green: clamp(green), blue: clamp(blue) }
    }
}

impl<T: ColorChannel + PartialEq> PartialEq for RGB<T> {
    /// Two colors are equal where each channel of the one equals the same
    /// channel of the other, as the channel type has it.
    fn eq(&self, other: &Self) -> (r: bool) {
        self.red == other.red && self.green == other.green && self.blue == other.blue
    }
}

impl<T: ColorChannel + PartialEq> PartialEqSpecImpl for RGB<T> {
    open spec fn obeys_eq_spec() -> bool {
        T::obeys_eq_spec()
    }

    open spec fn eq_spec(&self, other: &Self) -> bool {
        self.red.eq_spec(&other.red) && self.green.eq_spec(&other.green) && self.blue.eq_spec(
            &other.blue,
        )
    }
}

impl<T: Channel> RGB<T> {
    /// The text that shows the color to a reader.
    pub open spec fn display_text(self) -> Seq<char> {
        "RGB("@ + self.red.display_text() + ", "@ + self.green.display_text() + ", "@
            + self.blue.display_text() + ")"@
    }

    /// Shows the color as `RGB(r, g, b)`, each channel as its type shows it.
    pub fn to_string(&self) -> (s: String)
        ensures
            s@ == self.display_text(),
    {
        let mut s = String::from_str("RGB(");
        s.append(self.red.channel_display().as_str());
        s.append(", ");
        s.append(self.green.channel_display().as_str());
        s.append(", ");
        s.append(self.blue.channel_display().as_str());
        s.append(")");
        s
    }
}

impl<T: ColorChannel> Primary for RGB<T> {
    fn primary(color: PrimaryColor) -> (r: Self)
        ensures
            r == Self::named(color),
            r.is_valid(),
    {
        proof {
            T::limits_are_within_bounds();
        }
        Self {
            red: match color {
                PrimaryColor::Black
                | PrimaryColor::Green
                | PrimaryColor::Blue
                | PrimaryColor::Cyan => T::MIN,
                _ => T::MAX,
            },
            green: match color {
                PrimaryColor::Black
                | PrimaryColor::Red
                | PrimaryColor::Blue
                | PrimaryColor::Magenta => T::MIN,
                _ => T::MAX,
            },
            blue: match color {
                PrimaryColor::Black
                | PrimaryColor::Red
                | PrimaryColor::Green
                | PrimaryColor::Yellow => T::MIN,
                _ => T::MAX,
            },
        }
    }
}

impl<T: ColorChannel> From<PrimaryColor> for RGB<T> {
    fn from(color: PrimaryColor) -> (r: Self) {
        Self::primary(color)
    }
}

impl<T: ColorChannel> FromSpecImpl<PrimaryColor> for RGB<T> {
    open spec fn obeys_from_spec() -> bool {
        true
    }

    open spec fn from_spec(color: PrimaryColor) -> Self {
        Self::named(color)
    }
}

impl<T: ColorChannel + Hex> RGB<T> {
    /// The color that a hex string of this text holds, or the reason why it
    /// holds none.
    ///
    /// The outer form comes first, then the three pairs of digits, which
    /// the channel type reads, and last the range of each channel read.
    pub open spec fn read(text: Seq<char>) -> Result<Self, ColorError> {
        match shape_error(text) {
            Some(e) => Err(e),
            None => if !is_ascii_chars(text) {
                Err(ColorError::InvalidHexCharacter)
            } else {
                match (
                    T::hex_value(text.subrange(1, 3)),
                    T::hex_value(text.subrange(3, 5)),
                    T::hex_value(text.subrange(5, 7)),
                ) {
                    (Some(red), Some(green), Some(blue)) => match (RGB {
                        red,
                        green,
                        blue,
                    }).violation() {
                        Some(e) => Err(e),
                        None => Ok(RGB { red, green, blue }),
                    },
                    _ => Err(ColorError::InvalidHexCharacter),
                }
            },
        }
    }
}

impl<T: ColorChannel + Hex> Hex for RGB<T> {
    type Err = ColorError;

    /// A `#` and the hex notation of the red, the green and the blue channel.
    open spec fn hex_text(&self) -> Seq<char> {
        "#"@ + self.red.hex_text() + self.green.hex_text() + self.blue.hex_text()
    }

    open spec fn hex_value(text: Seq<char>) -> Option<Self> {
        match Self::read(text) {
            Ok(color) => Some(color),
            Err(_) => None,
        }
    }

    fn to_hex(&self) -> (s: String) {
        let mut s = String::from_str("#");
        s.append(self.red.to_hex().as_str());
        s.append(self.green.to_hex().as_str());
        s.append(self.blue.to_hex().as_str());
        s
    }

    /// Reads a color of the form `#rrggbb`.
    ///
    /// A string that is not seven characters long is `TruncatedHexString` or
    /// `HexStringOverflow`. One that does not start with `#`, or in which a
    /// pair of digits is none that the channel type reads, is
    /// `InvalidHexCharacter`. Then the channels are checked as `try_new`
    /// checks them.
    fn from_hex(hex: &str) -> (r: Result<Self, Self::Err>)
        ensures
            r == Self::read(hex@),
            r matches Ok(color) ==> color.is_valid(),
    {
        validate_hex_string(hex)?;
        if !hex.is_ascii() {
            return Err(ColorError::InvalidHexCharacter);
        }
        proof {
        }
        let red = match T::from_hex(hex.substring_ascii(1, 3)) {
            Ok(r) => r,
            Err(_) => return Err(ColorError::InvalidHexCharacter),
        };
        let green = match T::from_hex(hex.substring_ascii(3, 5)) {
            Ok(g) => g,
            Err(_) => return Err(ColorError::InvalidHexCharacter),
        };
        let blue = match T::from_hex(hex.substring_ascii(5, 7)) {
            Ok(b) => b,
            Err(_) => return Err(ColorError::InvalidHexCharacter),
        };
        Self::try_new(red, green, blue)
    }
}

} // verus!
