//! Colors as red, green and blue channels, with or without opacity, over
//! several channel types, with conversions to and from hex notation.
//!
//! A color is held in one of four forms: [`RGB`] and [`RGBA`] over any
//! channel type, [`ReducedRGBA`] with four channels of eight bits, and
//! [`HexColor`], a string of the form `#rrggbb` with a separate opacity.
//! A channel type says through [`ColorChannel`] which of its values a valid
//! color can hold and which level from 0 to 255 each of them has; the
//! integer types from `u8` to `i64` are channel types, each with the range
//! from 0 to 255.
//!
//! Every function states what it returns, and on which inputs it fails with
//! which [`ColorError`]. What holds of several functions together is proved
//! in [`laws`].
pub mod channel;
pub mod colorerror;
pub mod convert;
pub mod digits;
pub mod hex;
pub mod hexcolor;
pub mod laws;
pub mod primary;
pub mod reduced;
pub mod rgb;
pub mod rgba;

pub use channel::{Channel, ColorChannel};
pub use colorerror::ColorError;
pub use digits::Text;
pub use hex::{parse_hex, validate_hex_string, Hex};
pub use hexcolor::HexColor;
pub use primary::{Primary, PrimaryColor};
pub use reduced::ReducedRGBA;
pub use rgb::RGB;
pub use rgba::RGBA;
