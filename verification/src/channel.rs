//! What a type must offer to serve as one channel of a color.
use crate::colorerror::ColorError;
use crate::digits::{
    append_decimal, append_signed_decimal, decimal_text, signed_decimal_text, Text,
};
use vstd::prelude::*;

verus! {

/// The range of a channel type, and its place on the scale of a byte.
///
/// The range is from the least to the greatest value that a channel of a
/// valid color can hold. It need not be the whole type: the integer types of
/// every width range from 0 to 255. Every value within the range has a level
/// from 0 to 255, and the type has a value for every level: through these
/// levels a color passes from one channel type to another.
///
/// What is proved of colors over a channel type rests on the two laws at the
/// end of the trait. For the integer types they are proved here. A channel
/// type of another crate, such as one of floating point numbers from 0.0 to
/// 1.0, owes them to its users.
pub trait ColorChannel: Copy {
    /// The greatest value of a valid channel.
    const MAX: Self;

    /// The least value of a valid channel.
    const MIN: Self;

    /// What `MAX` holds.
    spec fn highest() -> Self;

    /// What `MIN` holds.
    spec fn lowest() -> Self;

    /// The value lies under `MIN`.
    spec fn below_min(self) -> bool;

    /// The value lies over `MAX`.
    spec fn above_max(self) -> bool;

    /// The level of a value within the range, from 0 for `MIN` to 255 for
    /// `MAX`.
    spec fn level(self) -> u8;

    /// The value of the type that stands for a level.
    spec fn of_level(level: u8) -> Self;

    /// Tells whether the value lies under `MIN`.
    fn is_below_min(&self) -> (b: bool)
        ensures
            b == self.below_min(),
    ;

    /// Tells whether the value lies over `MAX`.
    fn is_above_max(&self) -> (b: bool)
        ensures
            b == self.above_max(),
    ;

    /// Gives the level of a value within the range.
    fn to_byte(&self) -> (b: u8)
        requires
            !self.below_min(),
            !self.above_max(),
        ensures
            b == self.level(),
    ;

    /// Gives the value of the type that stands for a level.
    fn from_byte(b: u8) -> (c: Self)
        ensures
            c == Self::of_level(b),
    ;

    /// The two constants hold the limits, and the limits are themselves
    /// values of a valid channel.
    proof fn limits_are_within_bounds()
        ensures
            Self::MAX == Self::highest(),
            Self::MIN == Self::lowest(),
            !Self::lowest().below_min(),
            !Self::lowest().above_max(),
            !Self::highest().below_min(),
            !Self::highest().above_max(),
    ;

    /// The value that stands for a level is within the range and has that
    /// level, and the values for the levels 0 and 255 are the two limits.
    proof fn levels_are_kept(level: u8)
        ensures
            !Self::of_level(level).below_min(),
            !Self::of_level(level).above_max(),
            Self::of_level(level).level() == level,
            Self::of_level(0) == Self::lowest(),
            Self::of_level(255) == Self::highest(),
    ;
}

/// Required trait for a type to be able to represent a color channel: beside
/// its range, a channel has a text that shows it to a reader.
pub trait Channel: ColorChannel {
    /// The text that shows the value to a reader.
    spec fn display_text(self) -> Text;

    /// Shows the value to a reader.
    fn channel_display(&self) -> (s: String)
        ensures
            s@ == self.display_text(),
    ;
}

/// The value is one that a channel of a valid color can hold.
pub open spec fn within_bounds<T: ColorChannel>(c: T) -> bool {
    !c.below_min() && !c.above_max()
}

/// The error that the value gives rise to when it is checked: the lower
/// limit is looked at first.
pub open spec fn bound_error<T: ColorChannel>(c: T) -> Option<ColorError> {
    if c.below_min() {
        Some(ColorError::OutsideBoundsNegative)
    } else if c.above_max() {
        Some(ColorError::OutsideBoundsHigh)
    } else {
        None
    }
}

/// The error of the first checked value that has one, if any.
pub open spec fn or_else(first: Option<ColorError>, second: Option<ColorError>) -> Option<
    ColorError,
> {
    if first is Some {
        first
    } else {
        second
    }
}

/// The value brought into the range: `MIN` for one under it, `MAX` for one
/// over it, and the value itself otherwise.
pub open spec fn clamped<T: ColorChannel>(c: T) -> T {
    if c.below_min() {
        T::lowest()
    } else if c.above_max() {
        T::highest()
    } else {
        c
    }
}

/// Checks one channel against the range of its type.
pub fn check_bounds<T: ColorChannel>(c: T) -> (r: Result<(), ColorError>)
    ensures
        match bound_error(c) {
            Some(e) => r == Err::<(), ColorError>(e),
            None => r is Ok,
        },
{
    if c.is_below_min() {
        Err(ColorError::OutsideBoundsNegative)
    } else if c.is_above_max() {
        Err(ColorError::OutsideBoundsHigh)
    } else {
        Ok(())
    }
}

/// Brings one channel into the range of its type.
pub fn clamp<T: ColorChannel>(c: T) -> (r: T)
    ensures
        r == clamped(c),
{
    proof {
        T::limits_are_within_bounds();
    }
    if c.is_below_min() {
        T::MIN
    } else if c.is_above_max() {
        T::MAX
    } else {
        c
    }
}

/// A clamped value is always within the range, and clamping leaves a value
/// within the range as it is.
pub proof fn lemma_clamped_within_bounds<T: ColorChannel>(c: T)
    ensures
        within_bounds(clamped(c)),
        within_bounds(c) ==> clamped(c) == c,
{
    T::limits_are_within_bounds();
}

impl ColorChannel for u8 {
    const MAX: Self = 255;

    const MIN: Self = 0;

    open spec fn highest() -> Self {
        255
    }

    open spec fn lowest() -> Self {
        0
    }

    open spec fn below_min(self) -> bool {
        self < Self::lowest()
    }

    open spec fn above_max(self) -> bool {
        self > Self::highest()
    }

    /// The value itself, which is a byte wherever it is within the range.
    open spec fn level(self) -> u8 {
        self as u8
    }

    open spec fn of_level(level: u8) -> Self {
        level
    }

    #[allow(unused_comparisons)]
    fn is_below_min(&self) -> (b: bool) {
        *self < <Self as ColorChannel>::MIN
    }

    #[allow(unused_comparisons)]
    fn is_above_max(&self) -> (b: bool) {
        *self > <Self as ColorChannel>::MAX
    }

    fn to_byte(&self) -> (b: u8) {
        *self
    }

    fn from_byte(b: u8) -> (c: Self) {
        b
    }

    proof fn limits_are_within_bounds() {
    }

    proof fn levels_are_kept(level: u8) {
    }
}

impl Channel for u8 {
    open spec fn display_text(self) -> Seq<char> {
        decimal_text(self as nat)
    }

    fn channel_display(&self) -> (s: String) {
        let mut s = String::new();
        append_decimal(&mut s, *self as u64);
        s
    }
}

impl ColorChannel for u16 {
    const MAX: Self = 255;

    const MIN: Self = 0;

    open spec fn highest() -> Self {
        255
    }

    open spec fn lowest() -> Self {
        0
    }

    open spec fn below_min(self) -> bool {
        self < Self::lowest()
    }

    open spec fn above_max(self) -> bool {
        self > Self::highest()
    }

    /// The value itself, which is a byte wherever it is within the range.
    open spec fn level(self) -> u8 {
        self as u8
    }

    open spec fn of_level(level: u8) -> Self {
        level as u16
    }

    #[allow(unused_comparisons)]
    fn is_below_min(&self) -> (b: bool) {
        *self < <Self as ColorChannel>::MIN
    }

    #[allow(unused_comparisons)]
    fn is_above_max(&self) -> (b: bool) {
        *self > <Self as ColorChannel>::MAX
    }

    fn to_byte(&self) -> (b: u8) {
        *self as u8
    }

    fn from_byte(b: u8) -> (c: Self) {
        b as u16
    }

    proof fn limits_are_within_bounds() {
    }

    proof fn levels_are_kept(level: u8) {
    }
}

impl Channel for u16 {
    open spec fn display_text(self) -> Seq<char> {
        decimal_text(self as nat)
    }

    fn channel_display(&self) -> (s: String) {
        let mut s = String::new();
        append_decimal(&mut s, *self as u64);
        s
    }
}

impl ColorChannel for u32 {
    const MAX: Self = 255;

    const MIN: Self = 0;

    open spec fn highest() -> Self {
        255
    }

    open spec fn lowest() -> Self {
        0
    }

    open spec fn below_min(self) -> bool {
        self < Self::lowest()
    }

    open spec fn above_max(self) -> bool {
        self > Self::highest()
    }

    /// The value itself, which is a byte wherever it is within the range.
    open spec fn level(self) -> u8 {
        self as u8
    }

    open spec fn of_level(level: u8) -> Self {
        level as u32
    }

    #[allow(unused_comparisons)]
    fn is_below_min(&self) -> (b: bool) {
        *self < <Self as ColorChannel>::MIN
    }

    #[allow(unused_comparisons)]
    fn is_above_max(&self) -> (b: bool) {
        *self > <Self as ColorChannel>::MAX
    }

    fn to_byte(&self) -> (b: u8) {
        *self as u8
    }

    fn from_byte(b: u8) -> (c: Self) {
        b as u32
    }

    proof fn limits_are_within_bounds() {
    }

    proof fn levels_are_kept(level: u8) {
    }
}

impl Channel for u32 {
    open spec fn display_text(self) -> Seq<char> {
        decimal_text(self as nat)
    }

    fn channel_display(&self) -> (s: String) {
        let mut s = String::new();
        append_decimal(&mut s, *self as u64);
        s
    }
}

impl ColorChannel for u64 {
    const MAX: Self = 255;

    const MIN: Self = 0;

    open spec fn highest() -> Self {
        255
    }

    open spec fn lowest() -> Self {
        0
    }

    open spec fn below_min(self) -> bool {
        self < Self::lowest()
    }

    open spec fn above_max(self) -> bool {
        self > Self::highest()
    }

    /// The value itself, which is a byte wherever it is within the range.
    open spec fn level(self) -> u8 {
        self as u8
    }

    open spec fn of_level(level: u8) -> Self {
        level as u64
    }

    #[allow(unused_comparisons)]
    fn is_below_min(&self) -> (b: bool) {
        *self < <Self as ColorChannel>::MIN
    }

    #[allow(unused_comparisons)]
    fn is_above_max(&self) -> (b: bool) {
        *self > <Self as ColorChannel>::MAX
    }

    fn to_byte(&self) -> (b: u8) {
        *self as u8
    }

    fn from_byte(b: u8) -> (c: Self) {
        b as u64
    }

    proof fn limits_are_within_bounds() {
    }

    proof fn levels_are_kept(level: u8) {
    }
}

impl Channel for u64 {
    open spec fn display_text(self) -> Seq<char> {
        decimal_text(self as nat)
    }

    fn channel_display(&self) -> (s: String) {
        let mut s = String::new();
        append_decimal(&mut s, *self);
        s
    }
}

impl ColorChannel for i16 {
    const MAX: Self = 255;

    const MIN: Self = 0;

    open spec fn highest() -> Self {
        255
    }

    open spec fn lowest() -> Self {
        0
    }

    open spec fn below_min(self) -> bool {
        self < Self::lowest()
    }

    open spec fn above_max(self) -> bool {
        self > Self::highest()
    }

    /// The value itself, which is a byte wherever it is within the range.
    open spec fn level(self) -> u8 {
        self as u8
    }

    open spec fn of_level(level: u8) -> Self {
        level as i16
    }

    #[allow(unused_comparisons)]
    fn is_below_min(&self) -> (b: bool) {
        *self < <Self as ColorChannel>::MIN
    }

    #[allow(unused_comparisons)]
    fn is_above_max(&self) -> (b: bool) {
        *self > <Self as ColorChannel>::MAX
    }

    fn to_byte(&self) -> (b: u8) {
        *self as u8
    }

    fn from_byte(b: u8) -> (c: Self) {
        b as i16
    }

    proof fn limits_are_within_bounds() {
    }

    proof fn levels_are_kept(level: u8) {
    }
}

impl Channel for i16 {
    open spec fn display_text(self) -> Seq<char> {
        signed_decimal_text(self as int)
    }

    fn channel_display(&self) -> (s: String) {
        let mut s = String::new();
        append_signed_decimal(&mut s, *self as i64);
        s
    }
}

impl ColorChannel for i32 {
    const MAX: Self = 255;

    const MIN: Self = 0;

    open spec fn highest() -> Self {
        255
    }

    open spec fn lowest() -> Self {
        0
    }

    open spec fn below_min(self) -> bool {
        self < Self::lowest()
    }

    open spec fn above_max(self) -> bool {
        self > Self::highest()
    }

    /// The value itself, which is a byte wherever it is within the range.
    open spec fn level(self) -> u8 {
        self as u8
    }

    open spec fn of_level(level: u8) -> Self {
        level as i32
    }

    #[allow(unused_comparisons)]
    fn is_below_min(&self) -> (b: bool) {
        *self < <Self as ColorChannel>::MIN
    }

    #[allow(unused_comparisons)]
    fn is_above_max(&self) -> (b: bool) {
        *self > <Self as ColorChannel>::MAX
    }

    fn to_byte(&self) -> (b: u8) {
        *self as u8
    }

    fn from_byte(b: u8) -> (c: Self) {
        b as i32
    }

    proof fn limits_are_within_bounds() {
    }

    proof fn levels_are_kept(level: u8) {
    }
}

impl Channel for i32 {
    open spec fn display_text(self) -> Seq<char> {
        signed_decimal_text(self as int)
    }

    fn channel_display(&self) -> (s: String) {
        let mut s = String::new();
        append_signed_decimal(&mut s, *self as i64);
        s
    }
}

impl ColorChannel for i64 {
    const MAX: Self = 255;

    const MIN: Self = 0;

    open spec fn highest() -> Self {
        255
    }

    open spec fn lowest() -> Self {
        0
    }

    open spec fn below_min(self) -> bool {
        self < Self::lowest()
    }

    open spec fn above_max(self) -> bool {
        self > Self::highest()
    }

    /// The value itself, which is a byte wherever it is within the range.
    open spec fn level(self) -> u8 {
        self as u8
    }

    open spec fn of_level(level: u8) -> Self {
        level as i64
    }

    #[allow(unused_comparisons)]
    fn is_below_min(&self) -> (b: bool) {
        *self < <Self as ColorChannel>::MIN
    }

    #[allow(unused_comparisons)]
    fn is_above_max(&self) -> (b: bool) {
        *self > <Self as ColorChannel>::MAX
    }

    fn to_byte(&self) -> (b: u8) {
        *self as u8
    }

    fn from_byte(b: u8) -> (c: Self) {
        b as i64
    }

    proof fn limits_are_within_bounds() {
    }

    proof fn levels_are_kept(level: u8) {
    }
}

impl Channel for i64 {
    open spec fn display_text(self) -> Seq<char> {
        signed_decimal_text(self as int)
    }

    fn channel_display(&self) -> (s: String) {
        let mut s = String::new();
        append_signed_decimal(&mut s, *self);
        s
    }
}

} // verus!
