//! The eight named colors that every color type can be made from.
use vstd::prelude::*;

verus! {

/// An enumeration of primary and secondary colors.
#[derive(Clone, Copy, Debug, PartialEq, Eq, Structural)]
pub enum PrimaryColor {
    Black,
    White,
    Red,
    Green,
    Blue,
    Yellow,
    Magenta,
    Cyan,
}

impl PrimaryColor {
    /// The named color has its red channel at full strength.
    pub open spec fn has_red(self) -> bool {
        self is White || self is Red || self is Yellow || self is Magenta
    }

    /// The named color has its green channel at full strength.
    pub open spec fn has_green(self) -> bool {
        self is White || self is Green || self is Yellow || self is Cyan
    }

    /// The named color has its blue channel at full strength.
    pub open spec fn has_blue(self) -> bool {
        self is White || self is Blue || self is Magenta || self is Cyan
    }
}

/// Initializes the color storage type with the specified color.
pub trait Primary: Sized {
    /// Initializes the color storage type with the specified color.
    fn primary(color: PrimaryColor) -> Self;
}

} // verus!
