//! The ways in which validating or converting a color can fail.
use vstd::prelude::*;
use vstd::string::StringExecFns;

verus! {

/// Errors which might occur when validating or converting colors.
#[derive(Clone, Copy, Debug, PartialEq, Eq, Structural)]
pub enum ColorError {
    /// A channel or the opacity lies under its minimum.
    OutsideBoundsNegative,
    /// A channel or the opacity lies over its maximum.
    OutsideBoundsHigh,
    /// A hex string shorter than seven characters.
    TruncatedHexString,
    /// A hex string longer than seven characters.
    HexStringOverflow,
    /// A hex string of the right length that lacks its `#` or holds a
    /// character that is no hex digit.
    InvalidHexCharacter,
}

impl ColorError {
    /// The text that describes this error to a reader.
    pub open spec fn text(self) -> Seq<char> {
        match self {
            ColorError::OutsideBoundsNegative => "Value out of bounds: negative"@,
            ColorError::OutsideBoundsHigh => "Value out of bounds: too high"@,
            ColorError::TruncatedHexString => "Hex string is truncated"@,
            ColorError::HexStringOverflow => "Extra characters in hex string"@,
            ColorError::InvalidHexCharacter => "Invalid character in hex string"@,
        }
    }

    /// Describes the error in words.
    pub fn to_string(&self) -> (s: String)
        ensures
            s@ == self.text(),
    {
        match self {
            ColorError::OutsideBoundsNegative => String::from_str("Value out of bounds: negative"),
            ColorError::OutsideBoundsHigh => String::from_str("Value out of bounds: too high"),
            ColorError::TruncatedHexString => String::from_str("Hex string is truncated"),
            ColorError::HexStringOverflow => String::from_str("Extra characters in hex string"),
            ColorError::InvalidHexCharacter => String::from_str("Invalid character in hex string"),
        }
    }
}

} // verus!
