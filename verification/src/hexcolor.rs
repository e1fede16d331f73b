//! Colors in hex notation with a separate opacity.
use crate::channel::{bound_error, Channel, ColorChannel};
use crate::colorerror::ColorError;
use crate::hex::{parse_hex, triplet};
use crate::primary::{Primary, PrimaryColor};
use vstd::prelude::*;
use vstd::std_specs::cmp::{PartialEqSpec, PartialEqSpecImpl};
use vstd::string::StringExecFns;

verus! {

/// This struct contains a color represented in hex notation plus an opacity
/// value. This is necessary to represent colors in an SVG image.
///
/// A value of the type need not be a valid color: `validate` tells.
#[derive(Clone, Debug)]
pub struct HexColor<A: ColorChannel> {
    /// A seven character string beginning with `#` representing the three
    /// colors red, green and blue in hexadecimal.
    pub color: String,
    /// The opacity of the color.
    pub alpha: A,
}

impl<A: ColorChannel> HexColor<A> {
    /// What is wrong with the color, if anything: the opacity is looked at
    /// first, its lower limit before its upper limit, then the string.
    pub open spec fn violation(self) -> Option<ColorError> {
        match bound_error(self.alpha) {
            Some(e) => Some(e),
            None => match triplet(self.color@) {
                Err(e) => Some(e),
                Ok(_) => None,
            },
        }
    }

    /// The opacity is within the range of its type, and the string is a `#`
    /// and six hex digits.
    pub open spec fn is_valid(self) -> bool {
        self.violation() is None
    }

    /// The hex string of the named color.
    pub open spec fn named_text(color: PrimaryColor) -> Seq<char> {
        match color {
            PrimaryColor::Black => "#000000"@,
            PrimaryColor::White => "#ffffff"@,
            PrimaryColor::Red => "#ff0000"@,
            PrimaryColor::Green => "#00ff00"@,
            PrimaryColor::Blue => "#0000ff"@,
            PrimaryColor::Yellow => "#ffff00"@,
            PrimaryColor::Magenta => "#ff00ff"@,
            PrimaryColor::Cyan => "#00ffff"@,
        }
    }

    /// Checks that the color is valid.
    ///
    /// An opacity less than `MIN` is `OutsideBoundsNegative`, one greater
    /// than `MAX` is `OutsideBoundsHigh`. Then the string must hold three
    /// channels, as `parse_hex` reads them, or its error is the result.
    pub fn validate(&self) -> (r: Result<(), ColorError>)
        ensures
            match self.violation() {
                Some(e) => r == Err::<(), ColorError>(e),
                None => r is Ok,
            },
    {
        if self.alpha.is_below_min() {
            Err(ColorError::OutsideBoundsNegative)
        } else if self.alpha.is_above_max() {
            Err(ColorError::OutsideBoundsHigh)
        } else {
            match parse_hex(self.color.as_str()) {
                Err(e) => Err(e),
                Ok(_) => Ok(()),
            }
        }
    }
}

impl<A: ColorChannel + PartialEq> PartialEq for HexColor<A> {
    /// Two colors are equal where their strings are the same and their
    /// opacities are equal, as the type of the opacity has it.
    fn eq(&self, other: &Self) -> (r: bool) {
        self.color == other.color && self.alpha == other.alpha
    }
}

impl<A: ColorChannel + PartialEq> PartialEqSpecImpl for HexColor<A> {
    open spec fn obeys_eq_spec() -> bool {
        A::obeys_eq_spec()
    }

    open spec fn eq_spec(&self, other: &Self) -> bool {
        self.color@ == other.color@ && self.alpha.eq_spec(&other.alpha)
    }
}

impl<A: Channel> HexColor<A> {
    /// The text that shows the color to a reader.
    pub open spec fn display_text(self) -> Seq<char> {
        "color: "@ + self.color@ + ", alpha: "@ + self.alpha.display_text()
    }

    /// Shows the color as `color: #rrggbb, alpha: a`, the opacity as its type
    /// shows it.
    pub fn to_string(&self) -> (s: String)
        ensures
            s@ == self.display_text(),
    {
        let mut s = String::from_str("color: ");
        s.append(self.color.as_str());
        s.append(", alpha: ");
        s.append(self.alpha.channel_display().as_str());
        s
    }
}

impl<A: ColorChannel> Primary for HexColor<A> {
    /// The hex string of the named color, fully opaque.
    fn primary(color: PrimaryColor) -> (r: Self)
        ensures
            r.color@ == Self::named_text(color),
            r.alpha == A::highest(),
            r.is_valid(),
    {
        proof {
            A::limits_are_within_bounds();
        }
        let named = Self {
            color: String::from_str(
                match color {
                    PrimaryColor::Black => "#000000",
                    PrimaryColor::White => "#ffffff",
                    PrimaryColor::Red => "#ff0000",
                    PrimaryColor::Green => "#00ff00",
                    PrimaryColor::Blue => "#0000ff",
                    PrimaryColor::Yellow => "#ffff00",
                    PrimaryColor::Magenta => "#ff00ff",
                    PrimaryColor::Cyan => "#00ffff",
                },
            ),
            alpha: A::MAX,
        };
        proof {
            crate::laws::lemma_named_hex_round_trip(named, color);
        }
        named
    }
}

} // verus!
