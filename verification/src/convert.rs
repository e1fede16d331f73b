//! The ways from one representation of a color to another: hex notation,
//! channels of eight bits, and channels of any type.
//!
//! Every way starts with a check of the color it sets out from and fails
//! with the error of that check, before anything is converted. Channels
//! pass from one type to another through their levels from 0 to 255.
use crate::channel::ColorChannel;
use crate::colorerror::ColorError;
use crate::hex::{parse_hex, triplet, Hex};
use crate::hexcolor::HexColor;
use crate::reduced::ReducedRGBA;
use crate::rgb::RGB;
use crate::rgba::RGBA;
use vstd::prelude::*;

verus! {

impl ReducedRGBA {
    /// The hex string of the red, the green and the blue channel.
    pub open spec fn hex_text(self) -> Seq<char> {
        (RGB::<u8> { red: self.red, green: self.green, blue: self.blue }).hex_text()
    }

    /// The color in channels of the type `A`: each channel is the value that
    /// stands for its level.
    pub open spec fn rgba<A: ColorChannel>(self) -> RGBA<A> {
        RGBA {
            red: A::of_level(self.red),
            green: A::of_level(self.green),
            blue: A::of_level(self.blue),
            alpha: A::of_level(self.alpha),
        }
    }

    /// The color in hex notation, with an opacity of the type `A`. Every
    /// value of the type is a valid color, so the conversion never fails.
    pub fn to_hex<A: ColorChannel>(&self) -> (r: Result<HexColor<A>, ColorError>)
        ensures
            r matches Ok(hex) && hex.color@ == self.hex_text() && hex.alpha == A::of_level(
                self.alpha,
            ),
    {
        let rgb = RGB { red: self.red, green: self.green, blue: self.blue };
        Ok(HexColor { color: Hex::to_hex(&rgb), alpha: A::from_byte(self.alpha) })
    }

    /// The color in channels of the type `A`. Every value of the type is a
    /// valid color, so the conversion never fails.
    pub fn to_rgba<A: ColorChannel>(&self) -> (r: Result<RGBA<A>, ColorError>)
        ensures
            r == Ok::<RGBA<A>, ColorError>(self.rgba::<A>()),
    {
        Ok(
            RGBA {
                red: A::from_byte(self.red),
                green: A::from_byte(self.green),
                blue: A::from_byte(self.blue),
                alpha: A::from_byte(self.alpha),
            },
        )
    }

    /// The color in this very representation. Every value of the type is a
    /// valid color, so the conversion never fails.
    pub fn to_reduced_rgba(&self) -> (r: Result<Self, ColorError>)
        ensures
            r == Ok::<Self, ColorError>(*self),
    {
        Ok(*self)
    }
}

impl<T: ColorChannel> RGBA<T> {
    /// The levels of the four channels.
    pub open spec fn levels(self) -> ReducedRGBA {
        ReducedRGBA {
            red: self.red.level(),
            green: self.green.level(),
            blue: self.blue.level(),
            alpha: self.alpha.level(),
        }
    }

    /// The color in channels of eight bits, where it is valid, and its
    /// violation where it is not.
    pub open spec fn reduced(self) -> Result<ReducedRGBA, ColorError> {
        match self.violation() {
            Some(e) => Err(e),
            None => Ok(self.levels()),
        }
    }

    /// The color in hex notation, with an opacity of the type `A`.
    ///
    /// A color that is not valid gives the error of `validate`. The string
    /// is a `#` and the levels of red, green and blue in two hex digits
    /// each, and the opacity is the value of `A` that stands for the level
    /// of the alpha channel. For the string alone, as the channel type
    /// writes it, there is `Hex::to_hex`.
    pub fn to_hex<A: ColorChannel>(&self) -> (r: Result<HexColor<A>, ColorError>)
        ensures
            match self.violation() {
                Some(e) => r == Err::<HexColor<A>, ColorError>(e),
                None => r matches Ok(hex) && hex.color@ == self.levels().hex_text() && hex.alpha
                    == A::of_level(self.alpha.level()),
            },
    {
        self.validate()?;
        let rgb = RGB {
            red: self.red.to_byte(),
            green: self.green.to_byte(),
            blue: self.blue.to_byte(),
        };
        Ok(HexColor { color: Hex::to_hex(&rgb), alpha: A::from_byte(self.alpha.to_byte()) })
    }

    /// The color in this very representation, where it is valid, and the
    /// error of `validate` where it is not.
    pub fn to_rgba(&self) -> (r: Result<Self, ColorError>)
        ensures
            match self.violation() {
                Some(e) => r == Err::<Self, ColorError>(e),
                None => r == Ok::<Self, ColorError>(*self),
            },
    {
        self.validate()?;
        Ok(*self)
    }

    /// The color in channels of eight bits: the level of each channel.
    ///
    /// A color that is not valid gives the error of `validate`.
    pub fn to_reduced_rgba(&self) -> (r: Result<ReducedRGBA, ColorError>)
        ensures
            r == self.reduced(),
    {
        self.validate()?;
        Ok(
            ReducedRGBA {
                red: self.red.to_byte(),
                green: self.green.to_byte(),
                blue: self.blue.to_byte(),
                alpha: self.alpha.to_byte(),
            },
        )
    }
}

impl<A: ColorChannel> HexColor<A> {
    /// The color in channels of eight bits, where it is valid, and its
    /// violation where it is not: the three channels that the string holds,
    /// and the level of the opacity.
    pub open spec fn reduced(self) -> Result<ReducedRGBA, ColorError> {
        match self.violation() {
            Some(e) => Err(e),
            None => {
                let channels = triplet(self.color@)->Ok_0;
                Ok(
                    ReducedRGBA {
                        red: channels.0,
                        green: channels.1,
                        blue: channels.2,
                        alpha: self.alpha.level(),
                    },
                )
            },
        }
    }

    /// The color in channels of the type of its opacity, where it is valid,
    /// and its violation where it is not: each of the three channels that
    /// the string holds as the value that stands for its level, and the
    /// opacity as it is.
    pub open spec fn rgba(self) -> Result<RGBA<A>, ColorError> {
        match self.violation() {
            Some(e) => Err(e),
            None => {
                let channels = triplet(self.color@)->Ok_0;
                Ok(
                    RGBA {
                        red: A::of_level(channels.0),
                        green: A::of_level(channels.1),
                        blue: A::of_level(channels.2),
                        alpha: self.alpha,
                    },
                )
            },
        }
    }

    /// The color in this very representation, where it is valid, and the
    /// error of `validate` where it is not.
    pub fn to_hex(&self) -> (r: Result<Self, ColorError>)
        ensures
            match self.violation() {
                Some(e) => r == Err::<Self, ColorError>(e),
                None => r matches Ok(same) && same.color@ == self.color@ && same.alpha
                    == self.alpha,
            },
    {
        self.validate()?;
        Ok(HexColor { color: self.color.clone(), alpha: self.alpha })
    }

    /// The color in channels of the type of its opacity.
    ///
    /// A color that is not valid gives the error of `validate`. The opacity
    /// becomes the alpha channel as it is.
    pub fn to_rgba(&self) -> (r: Result<RGBA<A>, ColorError>)
        ensures
            r == self.rgba(),
    {
        self.validate()?;
        let (red, green, blue) = parse_hex(self.color.as_str())?;
        Ok(
            RGBA {
                red: A::from_byte(red),
                green: A::from_byte(green),
                blue: A::from_byte(blue),
                alpha: self.alpha,
            },
        )
    }

    /// The color in channels of eight bits.
    ///
    /// A color that is not valid gives the error of `validate`. The level
    /// of the opacity becomes the alpha channel.
    pub fn to_reduced_rgba(&self) -> (r: Result<ReducedRGBA, ColorError>)
        ensures
            r == self.reduced(),
    {
        self.validate()?;
        let (red, green, blue) = parse_hex(self.color.as_str())?;
        Ok(ReducedRGBA { red, green, blue, alpha: self.alpha.to_byte() })
    }
}

} // verus!
